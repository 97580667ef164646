use apexcharts_rs::json::Json;
use apexcharts_rs::chart_options::override_chart_type;
use apexcharts_rs::options::{configure, series_payload, SeriesPayload};
use apexcharts_rs::prelude::{
    build_options, ChartOptions, ChartSeries, ChartType, ConfigError, OptionsBuilder, SeriesData,
};
use serde_json::Number;

fn share(value: f64) -> Number {
    Number::from_f64(value).unwrap()
}

fn plain_series() -> Vec<ChartSeries> {
    vec![ChartSeries {
        name: "Series 1".to_string(),
        data: SeriesData::Single(vec![10, 20, 30]),
        color: "#008FFB".to_string(),
        chart_type: None,
        z_index: None,
    }]
}

fn radial_series() -> Vec<ChartSeries> {
    vec![ChartSeries {
        name: "Traffic".to_string(),
        data: SeriesData::Radial(vec![
            ("Direct".to_string(), share(52.8)),
            ("Organic".to_string(), share(21.4)),
        ]),
        color: "#00E396".to_string(),
        chart_type: None,
        z_index: None,
    }]
}

fn text_at<'a>(doc: &'a Json, path: &[&str]) -> &'a Json {
    let mut at = doc;
    for key in path {
        at = at.get(key).unwrap();
    }
    at
}

#[test]
fn line_chart_without_raw_options() {
    let series = plain_series();
    let doc = build_options(ChartType::Line, "100%", "300px", "", &series).unwrap();
    assert_eq!(text_at(&doc, &["chart", "type"]), &Json::String("line".to_string()));
    assert_eq!(text_at(&doc, &["chart", "width"]), &Json::String("100%".to_string()));
    assert_eq!(text_at(&doc, &["chart", "height"]), &Json::String("300px".to_string()));
    assert_eq!(
        doc.get("series").unwrap().to_text(),
        r##"[{"name":"Series 1","data":[10,20,30],"color":"#008FFB"}]"##
    );
    assert!(doc.get("labels").is_none());
    assert_eq!(
        doc.to_text(),
        r##"{"chart":{"type":"line","width":"100%","height":"300px"},"series":[{"name":"Series 1","data":[10,20,30],"color":"#008FFB"}]}"##
    );
}

#[test]
fn pie_chart_with_radial_data() {
    let series = radial_series();
    let doc = build_options(ChartType::Pie, "100%", "auto", "", &series).unwrap();
    assert_eq!(doc.get("series").unwrap().to_text(), "[52.8,21.4]");
    assert_eq!(doc.get("labels").unwrap().to_text(), r#"["Direct","Organic"]"#);
    assert_eq!(
        doc.to_text(),
        r#"{"chart":{"type":"pie","width":"100%","height":"auto"},"series":[52.8,21.4],"labels":["Direct","Organic"]}"#
    );
}

#[test]
fn every_radial_kind_takes_magnitudes_and_labels() {
    for kind in [ChartType::Pie, ChartType::Donut, ChartType::RadialBar, ChartType::CircularGauge] {
        let doc = build_options(kind, "1px", "2px", "", &radial_series()).unwrap();
        assert_eq!(doc.get("series").unwrap().to_text(), "[52.8,21.4]");
        assert_eq!(doc.get("labels").unwrap().to_text(), r#"["Direct","Organic"]"#);
        assert_eq!(text_at(&doc, &["chart", "type"]), &Json::String(kind.to_string()));
    }
}

#[test]
fn radial_kind_uses_only_the_first_series() {
    let mut series = radial_series();
    series.push(ChartSeries {
        name: "Other".to_string(),
        data: SeriesData::Radial(vec![("Paid".to_string(), share(9.0))]),
        color: "#000".to_string(),
        chart_type: None,
        z_index: None,
    });
    let doc = build_options(ChartType::Donut, "100%", "auto", "", &series).unwrap();
    assert_eq!(doc.get("series").unwrap().to_text(), "[52.8,21.4]");
    assert_eq!(doc.get("labels").unwrap().to_text(), r#"["Direct","Organic"]"#);
}

#[test]
fn radial_kind_with_plain_data_falls_back_to_all_series() {
    let mut series = plain_series();
    series.extend(radial_series());
    let doc = build_options(ChartType::RadialBar, "100%", "auto", "", &series).unwrap();
    assert_eq!(
        doc.get("series").unwrap().to_text(),
        r##"[{"name":"Series 1","data":[10,20,30],"color":"#008FFB"},{"name":"Traffic","data":[{"x":"Direct","y":52.8},{"x":"Organic","y":21.4}],"color":"#00E396"}]"##
    );
    assert!(doc.get("labels").is_none());
}

#[test]
fn plain_kind_with_radial_data_writes_series_objects() {
    let doc = build_options(ChartType::Bar, "100%", "auto", "", &radial_series()).unwrap();
    assert_eq!(
        doc.get("series").unwrap().to_text(),
        r##"[{"name":"Traffic","data":[{"x":"Direct","y":52.8},{"x":"Organic","y":21.4}],"color":"#00E396"}]"##
    );
    assert!(doc.get("labels").is_none());
}

#[test]
fn radial_kind_without_series_is_degraded_not_an_error() {
    for kind in [ChartType::Pie, ChartType::Donut, ChartType::RadialBar, ChartType::CircularGauge] {
        let doc = build_options(kind, "100%", "auto", "", &vec![]).unwrap();
        assert_eq!(doc.get("series"), Some(&Json::Array(vec![])));
        assert!(doc.get("labels").is_none());
    }
    let doc = build_options(ChartType::Pie, "100%", "auto", r#"{"grid":{}}"#, &vec![]).unwrap();
    assert_eq!(doc.get("series").unwrap().to_text(), "[]");
    assert!(doc.get("labels").is_none());
}

#[test]
fn raw_options_keep_their_unrelated_keys() {
    let raw = r##"{"grid":{"show":false},"chart":{"type":"bar","toolbar":{"show":true},"width":1},"tooltip":{"enabled":true,"delay":0.25},"series":[1,2,3]}"##;
    let doc = build_options(ChartType::Line, "100%", "300px", raw, &plain_series()).unwrap();
    assert_eq!(doc.get("grid").unwrap().to_text(), r#"{"show":false}"#);
    assert_eq!(doc.get("tooltip").unwrap().to_text(), r#"{"enabled":true,"delay":0.25}"#);
    assert_eq!(text_at(&doc, &["chart", "toolbar"]).to_text(), r#"{"show":true}"#);
    assert_eq!(text_at(&doc, &["chart", "type"]), &Json::String("line".to_string()));
    assert_eq!(text_at(&doc, &["chart", "width"]), &Json::String("100%".to_string()));
    assert_eq!(text_at(&doc, &["chart", "height"]), &Json::String("300px".to_string()));
    assert_eq!(
        doc.to_text(),
        r##"{"grid":{"show":false},"chart":{"type":"line","toolbar":{"show":true},"width":"100%","height":"300px"},"tooltip":{"enabled":true,"delay":0.25},"series":[{"name":"Series 1","data":[10,20,30],"color":"#008FFB"}]}"##
    );
}

#[test]
fn raw_options_without_a_chart_object_get_one() {
    let doc = build_options(ChartType::Area, "50%", "auto", r#"{"grid":1}"#, &vec![]).unwrap();
    assert_eq!(
        doc.to_text(),
        r#"{"grid":1,"chart":{"type":"area","width":"50%","height":"auto"},"series":[]}"#
    );
}

#[test]
fn a_chart_entry_that_is_no_object_is_replaced() {
    let doc = build_options(ChartType::Area, "50%", "auto", r#"{"chart":5}"#, &vec![]).unwrap();
    assert_eq!(
        doc.to_text(),
        r#"{"chart":{"type":"area","width":"50%","height":"auto"},"series":[]}"#
    );
    let doc = build_options(ChartType::Area, "50%", "auto", r#"{"chart":null}"#, &vec![]).unwrap();
    assert_eq!(
        doc.to_text(),
        r#"{"chart":{"type":"area","width":"50%","height":"auto"},"series":[]}"#
    );
}

#[test]
fn labels_in_raw_options_are_overwritten_only_by_labels() {
    let raw = r#"{"labels":["old"],"series":[9]}"#;
    let radial = build_options(ChartType::Pie, "100%", "auto", raw, &radial_series()).unwrap();
    assert_eq!(radial.get("labels").unwrap().to_text(), r#"["Direct","Organic"]"#);
    assert_eq!(radial.get("series").unwrap().to_text(), "[52.8,21.4]");
    let plain = build_options(ChartType::Line, "100%", "auto", raw, &plain_series()).unwrap();
    assert_eq!(plain.get("labels").unwrap().to_text(), r#"["old"]"#);
}

#[test]
fn malformed_raw_options_are_invalid_json() {
    let series = plain_series();
    assert_eq!(
        build_options(ChartType::Line, "100%", "300px", "{not json", &series),
        Err(ConfigError::InvalidJson)
    );
    assert_eq!(
        build_options(ChartType::Line, "100%", "300px", " ", &series),
        Err(ConfigError::InvalidJson)
    );
    assert_eq!(
        build_options(ChartType::Line, "100%", "300px", r#"{"a":1} trailing"#, &series),
        Err(ConfigError::InvalidJson)
    );
}

#[test]
fn raw_options_that_are_no_object_are_invalid_json() {
    for raw in ["[1,2]", "null", "5", "\"text\"", "true"] {
        assert_eq!(
            build_options(ChartType::Pie, "100%", "auto", raw, &radial_series()),
            Err(ConfigError::InvalidJson)
        );
    }
}

#[test]
fn series_payload_follows_the_kind_and_the_first_series() {
    let payload = series_payload(ChartType::Pie, &radial_series());
    assert_eq!(payload.series.to_text(), "[52.8,21.4]");
    assert_eq!(payload.labels, Some(vec!["Direct".to_string(), "Organic".to_string()]));
    let payload = series_payload(ChartType::Line, &radial_series());
    assert_eq!(payload.labels, None);
    let payload = series_payload(ChartType::Donut, &vec![]);
    assert_eq!(payload.series, Json::Array(vec![]));
    assert_eq!(payload.labels, None);
    let payload = series_payload(ChartType::Line, &vec![]);
    assert_eq!(payload.series, Json::Array(vec![]));
}

#[test]
fn configure_writes_over_a_parsed_document() {
    let base = Json::parse(r#"{"series":0,"chart":{"height":"1px"},"labels":1}"#).unwrap();
    let payload = SeriesPayload {
        series: Json::Array(vec![Json::integer(7)]),
        labels: Some(vec!["seven".to_string()]),
    };
    let doc = configure(base, ChartType::Donut, "10px", "20px", payload).unwrap();
    assert_eq!(
        doc.to_text(),
        r#"{"series":[7],"chart":{"height":"20px","type":"donut","width":"10px"},"labels":["seven"]}"#
    );
}

#[test]
fn configure_rejects_what_is_no_object() {
    let payload = SeriesPayload { series: Json::Array(vec![]), labels: None };
    assert_eq!(
        configure(Json::Array(vec![]), ChartType::Line, "1", "2", payload),
        Err(ConfigError::InvalidJson)
    );
    let payload = SeriesPayload { series: Json::Array(vec![]), labels: None };
    assert_eq!(
        configure(Json::Null, ChartType::Line, "1", "2", payload),
        Err(ConfigError::InvalidJson)
    );
}

#[test]
fn builder_defaults_to_full_width_and_automatic_height() {
    let builder = OptionsBuilder::new(ChartType::Line, plain_series());
    assert_eq!(builder.width, "100%");
    assert_eq!(builder.height, "auto");
    assert_eq!(builder.raw_options, "");
    assert_eq!(builder.chart_type, ChartType::Line);
    assert_eq!(builder.series, plain_series());
    let doc = builder.build().unwrap();
    assert_eq!(
        doc.to_text(),
        r##"{"chart":{"type":"line","width":"100%","height":"auto"},"series":[{"name":"Series 1","data":[10,20,30],"color":"#008FFB"}]}"##
    );
}

#[test]
fn builder_with_bad_raw_options_fails() {
    let mut builder = OptionsBuilder::new(ChartType::Line, plain_series());
    builder.raw_options = "{not json".to_string();
    assert_eq!(builder.build(), Err(ConfigError::InvalidJson));
}

#[test]
fn chart_type_override_sets_only_the_type() {
    let loaded = ChartOptions::from_string(
        r#"{"chart":{"type":"line","height":350},"series":[{"name":"Series 1","data":[30,40,35,50,49,125]}]}"#
            .to_string(),
    );
    let doc = loaded.with_chart_type_override(ChartType::Bar).unwrap();
    assert_eq!(
        doc.to_text(),
        r#"{"chart":{"type":"bar","height":350},"series":[{"name":"Series 1","data":[30,40,35,50,49,125]}]}"#
    );
}

#[test]
fn chart_type_override_adds_a_missing_chart_object() {
    let loaded = ChartOptions::from_string(r#"{"series":[]}"#.to_string());
    let doc = loaded.with_chart_type_override(ChartType::HeatMap).unwrap();
    assert_eq!(doc.to_text(), r#"{"series":[],"chart":{"type":"heatmap"}}"#);
}

#[test]
fn chart_type_override_needs_an_object() {
    assert_eq!(
        ChartOptions::from_string("".to_string()).with_chart_type_override(ChartType::Bar),
        Err(ConfigError::InvalidJson)
    );
    assert_eq!(
        ChartOptions::from_string("[]".to_string()).with_chart_type_override(ChartType::Bar),
        Err(ConfigError::InvalidJson)
    );
    assert_eq!(override_chart_type(Json::Bool(true), ChartType::Bar), Err(ConfigError::InvalidJson));
}

#[test]
fn built_documents_are_well_formed() {
    let raw = r#"{"chart":{"type":"x","type2":1},"series":1,"labels":2,"other":{"a":{"a":1}}}"#;
    let doc = build_options(ChartType::Pie, "100%", "auto", raw, &radial_series()).unwrap();
    assert!(doc.is_well_formed());
}
