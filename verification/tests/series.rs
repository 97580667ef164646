use apexcharts_rs::prelude::{ChartSeries, ChartType, SeriesData};
use apexcharts_rs::series::serialize_series;
use serde_json::Number;

fn share(value: f64) -> Number {
    Number::from_f64(value).unwrap()
}

#[test]
fn test_series_data_serialization() {
    let single_data = SeriesData::Single(vec![10, 20, 30]).serialize().to_text();
    assert_eq!(single_data, "[10,20,30]");

    let numeric_paired_data =
        SeriesData::NumericPaired(vec![(10, 20), (20, 30)]).serialize().to_text();
    assert_eq!(numeric_paired_data, "[[10,20],[20,30]]");

    let category_paired_data = SeriesData::CategoryPaired(vec![
        ("Apple".to_string(), 30),
        ("Banana".to_string(), 40),
    ])
    .serialize()
    .to_text();
    assert_eq!(category_paired_data, r#"[{"x":"Apple","y":30},{"x":"Banana","y":40}]"#);

    let timestamped_data =
        SeriesData::Timestamped(vec![(1619683200, 30), (1619769600, 40)]).serialize().to_text();
    assert_eq!(timestamped_data, "[[1619683200,30],[1619769600,40]]");

    let dated_data = SeriesData::Dated(vec![
        ("2021-04-29".to_string(), 30),
        ("2021-04-30".to_string(), 40),
    ])
    .serialize()
    .to_text();
    assert_eq!(dated_data, r#"[{"x":"2021-04-29","y":30},{"x":"2021-04-30","y":40}]"#);
}

#[test]
fn radial_data_serializes_to_labelled_points() {
    let data = SeriesData::Radial(vec![
        ("Direct".to_string(), share(52.8)),
        ("Organic".to_string(), share(21.4)),
    ]);
    assert_eq!(
        data.serialize().to_text(),
        r#"[{"x":"Direct","y":52.8},{"x":"Organic","y":21.4}]"#
    );
}

#[test]
fn empty_data_serializes_to_an_empty_array() {
    assert_eq!(SeriesData::Single(vec![]).serialize().to_text(), "[]");
    assert_eq!(SeriesData::Radial(vec![]).serialize().to_text(), "[]");
}

#[test]
fn negative_and_extreme_values_keep_their_digits() {
    let data = SeriesData::NumericPaired(vec![(i64::MIN, -1), (0, i64::MAX)]);
    assert_eq!(
        data.serialize().to_text(),
        "[[-9223372036854775808,-1],[0,9223372036854775807]]"
    );
}

#[test]
fn labels_and_magnitudes_split_radial_data_in_order() {
    let data = SeriesData::Radial(vec![
        ("Direct".to_string(), share(52.8)),
        ("Organic".to_string(), share(21.4)),
        ("Direct".to_string(), share(0.5)),
    ]);
    let (labels, magnitudes) = data.labels_and_magnitudes().unwrap();
    assert_eq!(labels, vec!["Direct".to_string(), "Organic".to_string(), "Direct".to_string()]);
    assert_eq!(magnitudes, vec![share(52.8), share(21.4), share(0.5)]);
}

#[test]
fn labels_and_magnitudes_are_absent_for_other_data() {
    assert_eq!(SeriesData::Single(vec![1, 2]).labels_and_magnitudes(), None);
    assert_eq!(SeriesData::NumericPaired(vec![(1, 2)]).labels_and_magnitudes(), None);
    assert_eq!(
        SeriesData::CategoryPaired(vec![("a".to_string(), 1)]).labels_and_magnitudes(),
        None
    );
    assert_eq!(SeriesData::Timestamped(vec![(1, 2)]).labels_and_magnitudes(), None);
    assert_eq!(SeriesData::Dated(vec![("d".to_string(), 1)]).labels_and_magnitudes(), None);
}

#[test]
fn series_without_overrides_leaves_them_out() {
    let series = ChartSeries {
        name: "Series 1".to_string(),
        data: SeriesData::Single(vec![10, 20, 30]),
        color: "#008FFB".to_string(),
        chart_type: None,
        z_index: None,
    };
    assert_eq!(
        series.serialize().to_text(),
        r##"{"name":"Series 1","data":[10,20,30],"color":"#008FFB"}"##
    );
}

#[test]
fn series_with_overrides_writes_them_last() {
    let series = ChartSeries {
        name: "Trend".to_string(),
        data: SeriesData::NumericPaired(vec![(1, 2)]),
        color: "red".to_string(),
        chart_type: Some(ChartType::CircularGauge),
        z_index: Some(-3),
    };
    assert_eq!(
        series.serialize().to_text(),
        r#"{"name":"Trend","data":[[1,2]],"color":"red","type":"radialBar","z_index":-3}"#
    );
}

#[test]
fn series_with_only_a_stacking_order() {
    let series = ChartSeries {
        name: "s".to_string(),
        data: SeriesData::Single(vec![]),
        color: "".to_string(),
        chart_type: None,
        z_index: Some(i32::MAX),
    };
    assert_eq!(
        series.serialize().to_text(),
        r#"{"name":"s","data":[],"color":"","z_index":2147483647}"#
    );
}

#[test]
fn serialize_series_keeps_the_order_of_the_series() {
    let series = vec![
        ChartSeries {
            name: "b".to_string(),
            data: SeriesData::Single(vec![2]),
            color: "#1".to_string(),
            chart_type: Some(ChartType::Bar),
            z_index: None,
        },
        ChartSeries {
            name: "a".to_string(),
            data: SeriesData::Single(vec![1]),
            color: "#2".to_string(),
            chart_type: None,
            z_index: None,
        },
    ];
    assert_eq!(
        serialize_series(&series).to_text(),
        r##"[{"name":"b","data":[2],"color":"#1","type":"bar"},{"name":"a","data":[1],"color":"#2"}]"##
    );
    assert_eq!(serialize_series(&vec![]).to_text(), "[]");
}

#[test]
fn serialized_series_are_well_formed() {
    let series = ChartSeries {
        name: "x".to_string(),
        data: SeriesData::Dated(vec![("2021-04-29".to_string(), 30)]),
        color: "y".to_string(),
        chart_type: Some(ChartType::Line),
        z_index: Some(1),
    };
    assert!(series.serialize().is_well_formed());
    assert!(series.data.serialize().is_well_formed());
}

#[test]
fn labels_are_written_as_json_strings() {
    let data = SeriesData::CategoryPaired(vec![
        ("a \"quoted\" label".to_string(), 1),
        ("line\nbreak".to_string(), 2),
        ("caf\u{e9}".to_string(), 3),
    ]);
    assert_eq!(
        data.serialize().to_text(),
        "[{\"x\":\"a \\\"quoted\\\" label\",\"y\":1},{\"x\":\"line\\nbreak\",\"y\":2},{\"x\":\"caf\u{e9}\",\"y\":3}]"
    );
}

#[test]
fn a_cloned_series_equals_its_source() {
    let series = ChartSeries {
        name: "Traffic".to_string(),
        data: SeriesData::Radial(vec![("Direct".to_string(), share(52.8))]),
        color: "#00E396".to_string(),
        chart_type: Some(ChartType::Donut),
        z_index: Some(2),
    };
    let copy = series.clone();
    assert_eq!(copy, series);
    let mut changed = series.clone();
    changed.data = SeriesData::Radial(vec![("Direct".to_string(), share(52.9))]);
    assert_ne!(changed, series);
}
