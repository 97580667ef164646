//! Chart series: the data points of one series and how the engine wants
//! them written.

use crate::chart_type::ChartType;
use crate::codec::{integer_number, number_from_i64};
use crate::json::{
    entries_model, items_model, lemma_array_wf, lemma_wf_children, Json, JsonModel,
};
use vstd::prelude::*;

verus! {

/// The data points of one series.
#[derive(Clone, Debug, PartialEq)]
pub enum SeriesData {
    /// Plain values, such as `[10, 20, 30]`.
    Single(Vec<i64>),
    /// Pairs of numbers, such as `[(10, 20), (20, 30)]`.
    NumericPaired(Vec<(i64, i64)>),
    /// A value for each category, such as `[("Apple", 30), ("Banana", 40)]`.
    CategoryPaired(Vec<(String, i64)>),
    /// A value for each timestamp, such as `[(1619683200, 30)]`.
    Timestamped(Vec<(i64, i64)>),
    /// A value for each date, such as `[("2021-04-29", 30)]`.
    Dated(Vec<(String, i64)>),
    /// A labelled share of the whole for each slice of a pie, donut or
    /// radial chart.
    Radial(Vec<(String, serde_json::Number)>),
}

/// The mathematical value of a [`SeriesData`].
pub enum SeriesModel {
    Single(Seq<int>),
    NumericPaired(Seq<(int, int)>),
    CategoryPaired(Seq<(Seq<char>, int)>),
    Timestamped(Seq<(int, int)>),
    Dated(Seq<(Seq<char>, int)>),
    Radial(Seq<(Seq<char>, serde_json::Number)>),
}

/// Plain values as mathematical integers.
pub open spec fn values_of(points: Seq<i64>) -> Seq<int> {
    points.map_values(|y: i64| y as int)
}

/// Number pairs as pairs of mathematical integers.
pub open spec fn pairs_of(points: Seq<(i64, i64)>) -> Seq<(int, int)> {
    points.map_values(|p: (i64, i64)| (p.0 as int, p.1 as int))
}

/// Labelled values as pairs of a text and a mathematical integer.
pub open spec fn labelled_of(points: Seq<(String, i64)>) -> Seq<(Seq<char>, int)> {
    points.map_values(|p: (String, i64)| (p.0@, p.1 as int))
}

/// Labelled shares as pairs of a text and a number.
pub open spec fn shares_of(points: Seq<(String, serde_json::Number)>) -> Seq<
    (Seq<char>, serde_json::Number),
> {
    points.map_values(|p: (String, serde_json::Number)| (p.0@, p.1))
}

/// The characters of each text in a run of texts.
pub open spec fn texts_of(texts: Seq<String>) -> Seq<Seq<char>> {
    texts.map_values(|t: String| t@)
}

impl View for SeriesData {
    type V = SeriesModel;

    open spec fn view(&self) -> SeriesModel {
        match self {
            SeriesData::Single(points) => SeriesModel::Single(values_of(points@)),
            SeriesData::NumericPaired(points) => SeriesModel::NumericPaired(pairs_of(points@)),
            SeriesData::CategoryPaired(points) => SeriesModel::CategoryPaired(labelled_of(points@)),
            SeriesData::Timestamped(points) => SeriesModel::Timestamped(pairs_of(points@)),
            SeriesData::Dated(points) => SeriesModel::Dated(labelled_of(points@)),
            SeriesData::Radial(points) => SeriesModel::Radial(shares_of(points@)),
        }
    }
}

/// A whole number as a JSON number.
pub open spec fn whole(n: int) -> JsonModel {
    JsonModel::Number(integer_number(n))
}

/// The point `[x, y]`.
pub open spec fn pair_point(x: int, y: int) -> JsonModel {
    JsonModel::Array(seq![whole(x), whole(y)])
}

/// The point `{"x": x, "y": y}`.
pub open spec fn labelled_point(x: Seq<char>, y: serde_json::Number) -> JsonModel {
    JsonModel::Object(seq![("x"@, JsonModel::String(x)), ("y"@, JsonModel::Number(y))])
}

impl SeriesModel {
    /// The array the engine expects for this data. The shape of its items
    /// goes by the kind of data alone: plain numbers, `[x, y]` pairs, or
    /// `{"x": .., "y": ..}` objects, in the order of the points.
    pub open spec fn wire(self) -> JsonModel {
        match self {
            SeriesModel::Single(points) => JsonModel::Array(points.map_values(|y: int| whole(y))),
            SeriesModel::NumericPaired(points) => JsonModel::Array(
                points.map_values(|p: (int, int)| pair_point(p.0, p.1)),
            ),
            SeriesModel::CategoryPaired(points) => JsonModel::Array(
                points.map_values(|p: (Seq<char>, int)| labelled_point(p.0, integer_number(p.1))),
            ),
            SeriesModel::Timestamped(points) => JsonModel::Array(
                points.map_values(|p: (int, int)| pair_point(p.0, p.1)),
            ),
            SeriesModel::Dated(points) => JsonModel::Array(
                points.map_values(|p: (Seq<char>, int)| labelled_point(p.0, integer_number(p.1))),
            ),
            SeriesModel::Radial(points) => JsonModel::Array(
                points.map_values(|p: (Seq<char>, serde_json::Number)| labelled_point(p.0, p.1)),
            ),
        }
    }

    /// The labels of radial data, in the order of the points.
    pub open spec fn labels(self) -> Option<Seq<Seq<char>>> {
        match self {
            SeriesModel::Radial(points) => Some(
                points.map_values(|p: (Seq<char>, serde_json::Number)| p.0),
            ),
            _ => None,
        }
    }

    /// The magnitudes of radial data, in the order of the points.
    pub open spec fn magnitudes(self) -> Option<Seq<serde_json::Number>> {
        match self {
            SeriesModel::Radial(points) => Some(
                points.map_values(|p: (Seq<char>, serde_json::Number)| p.1),
            ),
            _ => None,
        }
    }
}

/// The array for a series has one item for each point, in the order of the
/// points, and the shape of every item goes by the kind of data.
pub proof fn lemma_wire_items(data: SeriesModel)
    ensures
        data.wire() is Array,
        match data {
            SeriesModel::Single(points) => {
                &&& data.wire()->Array_0.len() == points.len()
                &&& forall|i: int|
                    0 <= i < points.len() ==> #[trigger] data.wire()->Array_0[i] == whole(
                        points[i],
                    )
            },
            SeriesModel::NumericPaired(points) | SeriesModel::Timestamped(points) => {
                &&& data.wire()->Array_0.len() == points.len()
                &&& forall|i: int|
                    0 <= i < points.len() ==> #[trigger] data.wire()->Array_0[i] == pair_point(
                        points[i].0,
                        points[i].1,
                    )
            },
            SeriesModel::CategoryPaired(points) | SeriesModel::Dated(points) => {
                &&& data.wire()->Array_0.len() == points.len()
                &&& forall|i: int|
                    0 <= i < points.len() ==> #[trigger] data.wire()->Array_0[i]
                        == labelled_point(points[i].0, integer_number(points[i].1))
            },
            SeriesModel::Radial(points) => {
                &&& data.wire()->Array_0.len() == points.len()
                &&& forall|i: int|
                    0 <= i < points.len() ==> #[trigger] data.wire()->Array_0[i]
                        == labelled_point(points[i].0, points[i].1)
            },
        },
{
}

/// The keys of a labelled point differ.
pub proof fn lemma_point_keys()
    ensures
        "x"@ != "y"@,
{
    reveal_strlit("x");
    reveal_strlit("y");
    assert("x"@[0] != "y"@[0]);
}

/// A pair point is well formed.
pub proof fn lemma_pair_point_wf(x: int, y: int)
    ensures
        pair_point(x, y).wf(),
{
    lemma_wf_children(pair_point(x, y));
}

/// A labelled point is well formed.
pub proof fn lemma_labelled_point_wf(label: Seq<char>, share: serde_json::Number)
    ensures
        labelled_point(label, share).wf(),
{
    lemma_point_keys();
    lemma_wf_children(labelled_point(label, share));
}

/// The point `[x, y]`.
fn pair_json(x: i64, y: i64) -> (doc: Json)
    ensures
        doc@ == pair_point(x as int, y as int),
        doc.wf(),
{
    let mut items: Vec<Json> = Vec::new();
    items.push(Json::integer(x));
    items.push(Json::integer(y));
    let doc = Json::Array(items);
    proof {
        assert(items_model(items@) =~= seq![whole(x as int), whole(y as int)]);
        lemma_pair_point_wf(x as int, y as int);
    }
    doc
}

/// The point `{"x": x, "y": y}`.
fn labelled_json(x: &String, y: serde_json::Number) -> (doc: Json)
    ensures
        doc@ == labelled_point(x@, y),
        doc.wf(),
{
    let mut entries: Vec<(String, Json)> = Vec::new();
    entries.push(("x".to_owned(), Json::String(x.clone())));
    entries.push(("y".to_owned(), Json::Number(y)));
    let doc = Json::Object(entries);
    proof {
        assert(entries_model(entries@) =~= seq![
            ("x"@, JsonModel::String(x@)),
            ("y"@, JsonModel::Number(y)),
        ]);
        lemma_labelled_point_wf(x@, y);
    }
    doc
}

/// Plain values as JSON numbers.
fn plain_items(points: &Vec<i64>) -> (items: Vec<Json>)
    ensures
        items_model(items@) == values_of(points@).map_values(|y: int| whole(y)),
        forall|j: int| 0 <= j < items@.len() ==> (#[trigger] items@[j]).wf(),
{
    let mut items: Vec<Json> = Vec::new();
    let mut at: usize = 0;
    while at < points.len()
        invariant
            at <= points.len(),
            items@.len() == at,
            forall|j: int|
                0 <= j < at ==> (#[trigger] items@[j])@ == whole(points@[j] as int)
                    && items@[j].wf(),
        decreases points.len() - at,
    {
        items.push(Json::integer(points[at]));
        at += 1;
    }
    assert(items_model(items@) =~= values_of(points@).map_values(|y: int| whole(y)));
    items
}

/// Number pairs as `[x, y]` points.
fn pair_items(points: &Vec<(i64, i64)>) -> (items: Vec<Json>)
    ensures
        items_model(items@) == pairs_of(points@).map_values(
            |p: (int, int)| pair_point(p.0, p.1),
        ),
        forall|j: int| 0 <= j < items@.len() ==> (#[trigger] items@[j]).wf(),
{
    let mut items: Vec<Json> = Vec::new();
    let mut at: usize = 0;
    while at < points.len()
        invariant
            at <= points.len(),
            items@.len() == at,
            forall|j: int|
                0 <= j < at ==> (#[trigger] items@[j])@ == pair_point(
                    points@[j].0 as int,
                    points@[j].1 as int,
                ) && items@[j].wf(),
        decreases points.len() - at,
    {
        items.push(pair_json(points[at].0, points[at].1));
        at += 1;
    }
    assert(items_model(items@) =~= pairs_of(points@).map_values(
        |p: (int, int)| pair_point(p.0, p.1),
    ));
    items
}

/// Labelled values as `{"x": .., "y": ..}` points.
fn labelled_items(points: &Vec<(String, i64)>) -> (items: Vec<Json>)
    ensures
        items_model(items@) == labelled_of(points@).map_values(
            |p: (Seq<char>, int)| labelled_point(p.0, integer_number(p.1)),
        ),
        forall|j: int| 0 <= j < items@.len() ==> (#[trigger] items@[j]).wf(),
{
    let mut items: Vec<Json> = Vec::new();
    let mut at: usize = 0;
    while at < points.len()
        invariant
            at <= points.len(),
            items@.len() == at,
            forall|j: int|
                0 <= j < at ==> (#[trigger] items@[j])@ == labelled_point(
                    points@[j].0@,
                    integer_number(points@[j].1 as int),
                ) && items@[j].wf(),
        decreases points.len() - at,
    {
        items.push(labelled_json(&points[at].0, number_from_i64(points[at].1)));
        at += 1;
    }
    assert(items_model(items@) =~= labelled_of(points@).map_values(
        |p: (Seq<char>, int)| labelled_point(p.0, integer_number(p.1)),
    ));
    items
}

/// Labelled shares as `{"x": .., "y": ..}` points.
fn share_items(points: &Vec<(String, serde_json::Number)>) -> (items: Vec<Json>)
    ensures
        items_model(items@) == shares_of(points@).map_values(
            |p: (Seq<char>, serde_json::Number)| labelled_point(p.0, p.1),
        ),
        forall|j: int| 0 <= j < items@.len() ==> (#[trigger] items@[j]).wf(),
{
    let mut items: Vec<Json> = Vec::new();
    let mut at: usize = 0;
    while at < points.len()
        invariant
            at <= points.len(),
            items@.len() == at,
            forall|j: int|
                0 <= j < at ==> (#[trigger] items@[j])@ == labelled_point(
                    points@[j].0@,
                    points@[j].1,
                ) && items@[j].wf(),
        decreases points.len() - at,
    {
        items.push(labelled_json(&points[at].0, points[at].1.clone()));
        at += 1;
    }
    assert(items_model(items@) =~= shares_of(points@).map_values(
        |p: (Seq<char>, serde_json::Number)| labelled_point(p.0, p.1),
    ));
    items
}

impl SeriesData {
    /// The array the engine expects for this data.
    pub fn serialize(&self) -> (doc: Json)
        ensures
            doc@ == self@.wire(),
            doc.wf(),
    {
        let items = match self {
            SeriesData::Single(points) => plain_items(points),
            SeriesData::NumericPaired(points) => pair_items(points),
            SeriesData::CategoryPaired(points) => labelled_items(points),
            SeriesData::Timestamped(points) => pair_items(points),
            SeriesData::Dated(points) => labelled_items(points),
            SeriesData::Radial(points) => share_items(points),
        };
        proof {
            lemma_array_wf(items@);
        }
        Json::Array(items)
    }

    /// The labels and the magnitudes of radial data, each in the order of the
    /// points; `None` for every other kind of data.
    pub fn labels_and_magnitudes(&self) -> (split: Option<(Vec<String>, Vec<serde_json::Number>)>)
        ensures
            match split {
                Some((labels, magnitudes)) => {
                    &&& self@ is Radial
                    &&& self@.labels() == Some(texts_of(labels@))
                    &&& self@.magnitudes() == Some(magnitudes@)
                    &&& labels@.len() == self@->Radial_0.len()
                    &&& magnitudes@.len() == self@->Radial_0.len()
                    &&& forall|i: int|
                        0 <= i < labels@.len() ==> (#[trigger] labels@[i])@
                            == self@->Radial_0[i].0
                    &&& forall|i: int|
                        0 <= i < magnitudes@.len() ==> #[trigger] magnitudes@[i]
                            == self@->Radial_0[i].1
                },
                None => !(self@ is Radial),
            },
    {
        match self {
            SeriesData::Radial(points) => {
                let mut labels: Vec<String> = Vec::new();
                let mut magnitudes: Vec<serde_json::Number> = Vec::new();
                let ghost shares = shares_of(points@);
                let mut at: usize = 0;
                while at < points.len()
                    invariant
                        at <= points.len(),
                        shares == shares_of(points@),
                        labels@.len() == at,
                        magnitudes@.len() == at,
                        forall|j: int| 0 <= j < at ==> (#[trigger] labels@[j])@ == shares[j].0,
                        forall|j: int| 0 <= j < at ==> #[trigger] magnitudes@[j] == shares[j].1,
                    decreases points.len() - at,
                {
                    labels.push(points[at].0.clone());
                    magnitudes.push(points[at].1.clone());
                    at += 1;
                }
                assert(texts_of(labels@) =~= self@.labels()->0);
                assert(magnitudes@ =~= self@.magnitudes()->0);
                Some((labels, magnitudes))
            },
            _ => None,
        }
    }
}

/// One series of a chart: its data with a name and a colour, and optionally a
/// chart kind and a stacking order of its own.
#[derive(Clone, Debug, PartialEq)]
pub struct ChartSeries {
    pub name: String,
    pub data: SeriesData,
    /// A hex or CSS colour.
    pub color: String,
    /// Draws this series as another kind of chart than the rest.
    pub chart_type: Option<ChartType>,
    pub z_index: Option<i32>,
}

/// The mathematical value of a [`ChartSeries`].
pub struct ChartSeriesModel {
    pub name: Seq<char>,
    pub data: SeriesModel,
    pub color: Seq<char>,
    pub chart_type: Option<ChartType>,
    pub z_index: Option<int>,
}

impl View for ChartSeries {
    type V = ChartSeriesModel;

    open spec fn view(&self) -> ChartSeriesModel {
        ChartSeriesModel {
            name: self.name@,
            data: self.data@,
            color: self.color@,
            chart_type: self.chart_type,
            z_index: match self.z_index {
                Some(z) => Some(z as int),
                None => None,
            },
        }
    }
}

/// The values of a run of series, one for one.
pub open spec fn series_of(series: Seq<ChartSeries>) -> Seq<ChartSeriesModel> {
    series.map_values(|one: ChartSeries| one@)
}

impl ChartSeriesModel {
    /// The entries that every series has: its name, data and colour.
    pub open spec fn required_entries(self) -> Seq<(Seq<char>, JsonModel)> {
        seq![
            ("name"@, JsonModel::String(self.name)),
            ("data"@, self.data.wire()),
            ("color"@, JsonModel::String(self.color)),
        ]
    }

    /// The `type` entry, for a series with a chart kind of its own.
    pub open spec fn type_entries(self) -> Seq<(Seq<char>, JsonModel)> {
        match self.chart_type {
            Some(kind) => seq![("type"@, JsonModel::String(kind.wire_name()))],
            None => Seq::empty(),
        }
    }

    /// The `z_index` entry, for a series with a stacking order of its own.
    pub open spec fn z_index_entries(self) -> Seq<(Seq<char>, JsonModel)> {
        match self.z_index {
            Some(z) => seq![("z_index"@, whole(z))],
            None => Seq::empty(),
        }
    }

    /// The object the engine expects for this series: `name`, `data` and
    /// `color`, then `type` and `z_index` where the series has them. What the
    /// series does not have is left out, not written as `null`.
    pub open spec fn wire(self) -> JsonModel {
        JsonModel::Object(self.required_entries() + self.type_entries() + self.z_index_entries())
    }
}

/// The array of series objects the engine expects.
pub open spec fn series_wire(series: Seq<ChartSeriesModel>) -> JsonModel {
    JsonModel::Array(series.map_values(|one: ChartSeriesModel| one.wire()))
}

/// The keys of a series object differ from each other.
pub proof fn lemma_series_keys()
    ensures
        "name"@ != "data"@,
        "name"@ != "color"@,
        "name"@ != "type"@,
        "name"@ != "z_index"@,
        "data"@ != "color"@,
        "data"@ != "type"@,
        "data"@ != "z_index"@,
        "color"@ != "type"@,
        "color"@ != "z_index"@,
        "type"@ != "z_index"@,
{
    reveal_strlit("name");
    reveal_strlit("data");
    reveal_strlit("color");
    reveal_strlit("type");
    reveal_strlit("z_index");
    assert("name"@[0] == 'n' && "data"@[0] == 'd' && "color"@[0] == 'c' && "type"@[0] == 't'
        && "z_index"@[0] == 'z');
}

impl ChartSeries {
    /// The object the engine expects for this series.
    pub fn serialize(&self) -> (doc: Json)
        ensures
            doc@ == self@.wire(),
            doc.wf(),
    {
        let mut entries: Vec<(String, Json)> = Vec::new();
        entries.push(("name".to_owned(), Json::String(self.name.clone())));
        entries.push(("data".to_owned(), self.data.serialize()));
        entries.push(("color".to_owned(), Json::String(self.color.clone())));
        assert(entries_model(entries@) =~= self@.required_entries());
        if let Some(kind) = self.chart_type {
            entries.push(("type".to_owned(), kind.serialize()));
        }
        assert(entries_model(entries@) =~= self@.required_entries() + self@.type_entries());
        if let Some(z) = self.z_index {
            entries.push(("z_index".to_owned(), Json::integer(z as i64)));
        }
        assert(entries_model(entries@) =~= self@.required_entries() + self@.type_entries()
            + self@.z_index_entries());
        proof {
            lemma_series_keys();
            lemma_wf_children(JsonModel::Object(entries_model(entries@)));
        }
        Json::Object(entries)
    }
}

/// The array of series objects the engine expects.
pub fn serialize_series(series: &Vec<ChartSeries>) -> (doc: Json)
    ensures
        doc@ == series_wire(series_of(series@)),
        doc.wf(),
{
    let mut items: Vec<Json> = Vec::new();
    let mut at: usize = 0;
    while at < series.len()
        invariant
            at <= series.len(),
            items@.len() == at,
            forall|j: int|
                0 <= j < at ==> (#[trigger] items@[j])@ == series@[j]@.wire() && items@[j].wf(),
        decreases series.len() - at,
    {
        items.push(series[at].serialize());
        at += 1;
    }
    assert(items_model(items@) =~= series_of(series@).map_values(
        |one: ChartSeriesModel| one.wire(),
    ));
    proof {
        lemma_array_wf(items@);
    }
    Json::Array(items)
}

} // verus!
