//! The closed set of chart kinds and the names the charting engine knows them by.

use crate::json::{Json, JsonModel};
use vstd::prelude::*;

verus! {

/// The kind of chart to draw.
#[derive(Clone, Copy, Debug, PartialEq, Eq, Structural)]
pub enum ChartType {
    Area,
    Bar,
    Line,
    Column,
    BoxPlot,
    CandleStick,
    RangeBar,
    RangeArea,
    HeatMap,
    Treemap,
    Funnel,
    MultiAxis,
    Pie,
    Donut,
    Radar,
    RadialBar,
    CircularGauge,
}

/// Why a text was not accepted as a chart kind.
#[derive(Clone, Copy, Debug, PartialEq, Eq, Structural)]
pub enum ParseError {
    /// No chart kind goes by the given engine name.
    UnknownChartType,
}

impl ChartType {
    /// The name the engine uses for this kind. `RadialBar` and `CircularGauge`
    /// share one name: the engine draws both with the same chart.
    pub open spec fn wire_name(self) -> Seq<char> {
        match self {
            ChartType::Area => "area"@,
            ChartType::Bar => "bar"@,
            ChartType::Line => "line"@,
            ChartType::Column => "column"@,
            ChartType::BoxPlot => "boxPlot"@,
            ChartType::CandleStick => "candlestick"@,
            ChartType::RangeBar => "rangeBar"@,
            ChartType::RangeArea => "rangeArea"@,
            ChartType::HeatMap => "heatmap"@,
            ChartType::Treemap => "treemap"@,
            ChartType::Funnel => "funnel"@,
            ChartType::MultiAxis => "multiAxis"@,
            ChartType::Pie => "pie"@,
            ChartType::Donut => "donut"@,
            ChartType::Radar => "radar"@,
            ChartType::RadialBar => "radialBar"@,
            ChartType::CircularGauge => "radialBar"@,
        }
    }

    /// Whether this kind takes its data as one flat list of magnitudes with a
    /// list of labels beside it.
    pub open spec fn radial(self) -> bool {
        self is Pie || self is Donut || self is RadialBar || self is CircularGauge
    }

    /// The kind that `parse` gives back for this kind's engine name: the kind
    /// itself, except that `CircularGauge` comes back as `RadialBar`.
    pub open spec fn canonical(self) -> ChartType {
        if self is CircularGauge {
            ChartType::RadialBar
        } else {
            self
        }
    }

    /// The kind that goes by the engine name `text`, if there is one.
    pub open spec fn from_wire(text: Seq<char>) -> Option<ChartType> {
        if text == "area"@ {
            Some(ChartType::Area)
        } else if text == "bar"@ {
            Some(ChartType::Bar)
        } else if text == "line"@ {
            Some(ChartType::Line)
        } else if text == "column"@ {
            Some(ChartType::Column)
        } else if text == "boxPlot"@ {
            Some(ChartType::BoxPlot)
        } else if text == "candlestick"@ {
            Some(ChartType::CandleStick)
        } else if text == "rangeBar"@ {
            Some(ChartType::RangeBar)
        } else if text == "rangeArea"@ {
            Some(ChartType::RangeArea)
        } else if text == "heatmap"@ {
            Some(ChartType::HeatMap)
        } else if text == "treemap"@ {
            Some(ChartType::Treemap)
        } else if text == "funnel"@ {
            Some(ChartType::Funnel)
        } else if text == "multiAxis"@ {
            Some(ChartType::MultiAxis)
        } else if text == "pie"@ {
            Some(ChartType::Pie)
        } else if text == "donut"@ {
            Some(ChartType::Donut)
        } else if text == "radar"@ {
            Some(ChartType::Radar)
        } else if text == "radialBar"@ {
            Some(ChartType::RadialBar)
        } else {
            None
        }
    }

    /// The engine's name for this kind, borrowed.
    pub fn as_str(&self) -> (name: &'static str)
        ensures
            name@ == self.wire_name(),
    {
        match self {
            ChartType::Area => "area",
            ChartType::Bar => "bar",
            ChartType::Line => "line",
            ChartType::Column => "column",
            ChartType::BoxPlot => "boxPlot",
            ChartType::CandleStick => "candlestick",
            ChartType::RangeBar => "rangeBar",
            ChartType::RangeArea => "rangeArea",
            ChartType::HeatMap => "heatmap",
            ChartType::Treemap => "treemap",
            ChartType::Funnel => "funnel",
            ChartType::MultiAxis => "multiAxis",
            ChartType::Pie => "pie",
            ChartType::Donut => "donut",
            ChartType::Radar => "radar",
            ChartType::RadialBar => "radialBar",
            ChartType::CircularGauge => "radialBar",
        }
    }

    /// The engine's name for this kind, owned.
    pub fn to_string(&self) -> (name: String)
        ensures
            name@ == self.wire_name(),
    {
        self.as_str().to_owned()
    }

    /// The engine's name for this kind as a JSON string.
    pub fn serialize(&self) -> (doc: Json)
        ensures
            doc@ == JsonModel::String(self.wire_name()),
            doc.wf(),
    {
        Json::String(self.to_string())
    }

    /// Whether this kind belongs to the radial family.
    pub fn is_radial(&self) -> (b: bool)
        ensures
            b == self.radial(),
    {
        match self {
            ChartType::Pie | ChartType::Donut | ChartType::RadialBar | ChartType::CircularGauge => true,
            _ => false,
        }
    }

    /// Reads an engine name back into a chart kind. Every name that
    /// `as_str` can give is accepted and no other text is.
    pub fn parse(text: &str) -> (r: Result<ChartType, ParseError>)
        ensures
            r == match ChartType::from_wire(text@) {
                Some(kind) => Ok::<ChartType, ParseError>(kind),
                None => Err::<ChartType, ParseError>(ParseError::UnknownChartType),
            },
    {
        if same_text(text, "area") {
            Ok(ChartType::Area)
        } else if same_text(text, "bar") {
            Ok(ChartType::Bar)
        } else if same_text(text, "line") {
            Ok(ChartType::Line)
        } else if same_text(text, "column") {
            Ok(ChartType::Column)
        } else if same_text(text, "boxPlot") {
            Ok(ChartType::BoxPlot)
        } else if same_text(text, "candlestick") {
            Ok(ChartType::CandleStick)
        } else if same_text(text, "rangeBar") {
            Ok(ChartType::RangeBar)
        } else if same_text(text, "rangeArea") {
            Ok(ChartType::RangeArea)
        } else if same_text(text, "heatmap") {
            Ok(ChartType::HeatMap)
        } else if same_text(text, "treemap") {
            Ok(ChartType::Treemap)
        } else if same_text(text, "funnel") {
            Ok(ChartType::Funnel)
        } else if same_text(text, "multiAxis") {
            Ok(ChartType::MultiAxis)
        } else if same_text(text, "pie") {
            Ok(ChartType::Pie)
        } else if same_text(text, "donut") {
            Ok(ChartType::Donut)
        } else if same_text(text, "radar") {
            Ok(ChartType::Radar)
        } else if same_text(text, "radialBar") {
            Ok(ChartType::RadialBar)
        } else {
            Err(ParseError::UnknownChartType)
        }
    }
}

/// Whether two texts hold the same characters.
pub fn same_text(a: &str, b: &str) -> (same: bool)
    ensures
        same == (a@ == b@),
{
    a.to_owned() == b.to_owned()
}

/// The engine names of two kinds coincide only for `RadialBar` and
/// `CircularGauge`.
pub proof fn lemma_wire_names_distinct(a: ChartType, b: ChartType)
    ensures
        a.wire_name() == b.wire_name() <==> a.canonical() == b.canonical(),
{
    reveal_wire_names();
}

/// Parsing the engine name of a kind gives that kind back, with
/// `CircularGauge` read as `RadialBar`.
pub proof fn lemma_parse_inverts_wire_name(kind: ChartType)
    ensures
        ChartType::from_wire(kind.wire_name()) == Some(kind.canonical()),
{
    reveal_wire_names();
}

/// A text that parses is the engine name of the kind it parses to.
pub proof fn lemma_parsed_kind_has_that_name(text: Seq<char>)
    ensures
        ChartType::from_wire(text) matches Some(kind) ==> kind.wire_name() == text
            && kind.canonical() == kind,
{
}

/// Makes the characters of every engine name known to the solver.
pub proof fn reveal_wire_names()
    ensures
        "area"@ == seq!['a', 'r', 'e', 'a'],
        "bar"@ == seq!['b', 'a', 'r'],
        "line"@ == seq!['l', 'i', 'n', 'e'],
        "column"@ == seq!['c', 'o', 'l', 'u', 'm', 'n'],
        "boxPlot"@ == seq!['b', 'o', 'x', 'P', 'l', 'o', 't'],
        "candlestick"@ == seq!['c', 'a', 'n', 'd', 'l', 'e', 's', 't', 'i', 'c', 'k'],
        "rangeBar"@ == seq!['r', 'a', 'n', 'g', 'e', 'B', 'a', 'r'],
        "rangeArea"@ == seq!['r', 'a', 'n', 'g', 'e', 'A', 'r', 'e', 'a'],
        "heatmap"@ == seq!['h', 'e', 'a', 't', 'm', 'a', 'p'],
        "treemap"@ == seq!['t', 'r', 'e', 'e', 'm', 'a', 'p'],
        "funnel"@ == seq!['f', 'u', 'n', 'n', 'e', 'l'],
        "multiAxis"@ == seq!['m', 'u', 'l', 't', 'i', 'A', 'x', 'i', 's'],
        "pie"@ == seq!['p', 'i', 'e'],
        "donut"@ == seq!['d', 'o', 'n', 'u', 't'],
        "radar"@ == seq!['r', 'a', 'd', 'a', 'r'],
        "radialBar"@ == seq!['r', 'a', 'd', 'i', 'a', 'l', 'B', 'a', 'r'],
{
    reveal_strlit("area");
    reveal_strlit("bar");
    reveal_strlit("line");
    reveal_strlit("column");
    reveal_strlit("boxPlot");
    reveal_strlit("candlestick");
    reveal_strlit("rangeBar");
    reveal_strlit("rangeArea");
    reveal_strlit("heatmap");
    reveal_strlit("treemap");
    reveal_strlit("funnel");
    reveal_strlit("multiAxis");
    reveal_strlit("pie");
    reveal_strlit("donut");
    reveal_strlit("radar");
    reveal_strlit("radialBar");
}

} // verus!
