use apexcharts_rs::chart_type::{same_text, ChartType, ParseError};
use apexcharts_rs::json::Json;

const ALL: [ChartType; 17] = [
    ChartType::Area,
    ChartType::Bar,
    ChartType::Line,
    ChartType::Column,
    ChartType::BoxPlot,
    ChartType::CandleStick,
    ChartType::RangeBar,
    ChartType::RangeArea,
    ChartType::HeatMap,
    ChartType::Treemap,
    ChartType::Funnel,
    ChartType::MultiAxis,
    ChartType::Pie,
    ChartType::Donut,
    ChartType::Radar,
    ChartType::RadialBar,
    ChartType::CircularGauge,
];

#[test]
fn circular_gauge_and_radial_bar_share_a_wire_name() {
    assert_eq!(ChartType::CircularGauge.to_string(), "radialBar");
    assert_eq!(ChartType::RadialBar.to_string(), "radialBar");
    assert_eq!(ChartType::CircularGauge.as_str(), ChartType::RadialBar.as_str());
}

#[test]
fn every_kind_has_its_wire_name() {
    let names = [
        "area", "bar", "line", "column", "boxPlot", "candlestick", "rangeBar", "rangeArea",
        "heatmap", "treemap", "funnel", "multiAxis", "pie", "donut", "radar", "radialBar",
        "radialBar",
    ];
    for (kind, name) in ALL.iter().zip(names.iter()) {
        assert_eq!(kind.as_str(), *name);
        assert_eq!(kind.to_string(), name.to_string());
    }
}

#[test]
fn parse_reads_every_wire_name_back() {
    for kind in ALL.iter() {
        let expected =
            if *kind == ChartType::CircularGauge { ChartType::RadialBar } else { *kind };
        assert_eq!(ChartType::parse(kind.as_str()), Ok(expected));
    }
}

#[test]
fn wire_names_differ_but_for_the_shared_one() {
    for a in ALL.iter() {
        for b in ALL.iter() {
            let shared = matches!(a, ChartType::RadialBar | ChartType::CircularGauge)
                && matches!(b, ChartType::RadialBar | ChartType::CircularGauge);
            assert_eq!(a.as_str() == b.as_str(), a == b || shared);
        }
    }
}

#[test]
fn parse_rejects_other_text() {
    assert_eq!(ChartType::parse("Line"), Err(ParseError::UnknownChartType));
    assert_eq!(ChartType::parse(""), Err(ParseError::UnknownChartType));
    assert_eq!(ChartType::parse("radialbar"), Err(ParseError::UnknownChartType));
    assert_eq!(ChartType::parse("CircularGauge"), Err(ParseError::UnknownChartType));
    assert_eq!(ChartType::parse(" pie"), Err(ParseError::UnknownChartType));
}

#[test]
fn the_radial_family_has_four_kinds() {
    for kind in ALL.iter() {
        let expected = matches!(
            kind,
            ChartType::Pie | ChartType::Donut | ChartType::RadialBar | ChartType::CircularGauge
        );
        assert_eq!(kind.is_radial(), expected);
    }
}

#[test]
fn same_text_compares_characters() {
    assert!(same_text("chart", "chart"));
    assert!(same_text("", ""));
    assert!(!same_text("chart", "Chart"));
    assert!(!same_text("chart", "charts"));
}

#[test]
fn a_kind_serializes_to_its_wire_name() {
    assert_eq!(ChartType::CandleStick.serialize(), Json::String("candlestick".to_string()));
    assert_eq!(ChartType::CircularGauge.serialize().to_text(), "\"radialBar\"");
    assert_eq!(ChartType::RadialBar.serialize().to_text(), "\"radialBar\"");
}
