//! Building the configuration document that the engine is handed.
//!
//! The document is a JSON object. Its `chart.type`, `chart.width`,
//! `chart.height` and `series` entries always come from the typed inputs, and
//! so does `labels` where the series carry labels. Every other entry is the
//! caller's own and passes through untouched.

use crate::chart_type::ChartType;
use crate::codec::parsed_document;
use crate::error::ConfigError;
use crate::json::{
    entries_model, items_model, lemma_array_wf, lemma_index_of, lemma_index_of_is,
    lemma_wf_children, lemma_with_entry, lemma_with_entry_keeps_others, lemma_with_entry_wf, lookup,
    set_entry, with_entry, Json, JsonModel,
};
use crate::series::{
    serialize_series, series_of, series_wire, texts_of, ChartSeries, ChartSeriesModel,
};
use vstd::prelude::*;

verus! {

/// What the series contribute to a document: the value of its `series` entry
/// and, for labelled radial data, the value of its `labels` entry.
pub struct SeriesPayload {
    pub series: Json,
    pub labels: Option<Vec<String>>,
}

/// The mathematical value of a [`SeriesPayload`].
pub struct PayloadModel {
    pub series: JsonModel,
    pub labels: Option<Seq<Seq<char>>>,
}

impl View for SeriesPayload {
    type V = PayloadModel;

    open spec fn view(&self) -> PayloadModel {
        PayloadModel {
            series: self.series@,
            labels: match self.labels {
                Some(labels) => Some(texts_of(labels@)),
                None => None,
            },
        }
    }
}

/// A run of numbers as a JSON array.
pub open spec fn number_array(numbers: Seq<serde_json::Number>) -> JsonModel {
    JsonModel::Array(numbers.map_values(|n: serde_json::Number| JsonModel::Number(n)))
}

/// A run of texts as a JSON array of strings.
pub open spec fn string_array(texts: Seq<Seq<char>>) -> JsonModel {
    JsonModel::Array(texts.map_values(|t: Seq<char>| JsonModel::String(t)))
}

/// What the series contribute to a document of the given kind.
///
/// For a kind of the radial family only the first series counts. With no
/// series at all the payload is an empty array without labels. Where the
/// first series holds radial data, the payload is its magnitudes and the
/// labels are its labels, both in the order of the points. In every other
/// case the payload is the array of all series objects, without labels.
pub open spec fn payload_of(kind: ChartType, series: Seq<ChartSeriesModel>) -> PayloadModel {
    if kind.radial() && series.len() == 0 {
        PayloadModel { series: JsonModel::Array(Seq::empty()), labels: None }
    } else if kind.radial() && series[0].data is Radial {
        PayloadModel {
            series: number_array(series[0].data.magnitudes()->0),
            labels: series[0].data.labels(),
        }
    } else {
        PayloadModel { series: series_wire(series), labels: None }
    }
}

/// The entries of the `chart` object found among `base`, or none where
/// `base` has no `chart` entry or has one that is not an object.
pub open spec fn chart_section(base: Seq<(Seq<char>, JsonModel)>) -> Seq<(Seq<char>, JsonModel)> {
    match lookup(base, "chart"@) {
        Some(JsonModel::Object(section)) => section,
        _ => Seq::empty(),
    }
}

/// The `chart` object after the kind and both dimensions are written into it.
pub open spec fn chart_entries(
    section: Seq<(Seq<char>, JsonModel)>,
    kind: ChartType,
    width: Seq<char>,
    height: Seq<char>,
) -> Seq<(Seq<char>, JsonModel)> {
    let typed = with_entry(section, "type"@, JsonModel::String(kind.wire_name()));
    let wide = with_entry(typed, "width"@, JsonModel::String(width));
    with_entry(wide, "height"@, JsonModel::String(height))
}

/// The entries of the document that results from writing the typed inputs
/// over `base`.
pub open spec fn configured_entries(
    base: Seq<(Seq<char>, JsonModel)>,
    kind: ChartType,
    width: Seq<char>,
    height: Seq<char>,
    payload: PayloadModel,
) -> Seq<(Seq<char>, JsonModel)> {
    let chart = JsonModel::Object(chart_entries(chart_section(base), kind, width, height));
    let charted = with_entry(base, "chart"@, chart);
    let filled = with_entry(charted, "series"@, payload.series);
    match payload.labels {
        Some(labels) => with_entry(filled, "labels"@, string_array(labels)),
        None => filled,
    }
}

/// The outcome of writing the typed inputs over an already parsed document:
/// the configured object where `base` is an object, `InvalidJson` where it is
/// anything else.
pub open spec fn configured(
    base: JsonModel,
    kind: ChartType,
    width: Seq<char>,
    height: Seq<char>,
    payload: PayloadModel,
) -> Result<JsonModel, ConfigError> {
    match base {
        JsonModel::Object(entries) => Ok(
            JsonModel::Object(configured_entries(entries, kind, width, height, payload)),
        ),
        _ => Err(ConfigError::InvalidJson),
    }
}

/// The outcome of building a document from typed inputs and raw options.
///
/// Empty raw options stand for the empty object. Other raw options must
/// parse, and parse to an object; the typed inputs are then written over it.
pub open spec fn built(
    kind: ChartType,
    width: Seq<char>,
    height: Seq<char>,
    raw_options: Seq<char>,
    series: Seq<ChartSeriesModel>,
) -> Result<JsonModel, ConfigError> {
    let payload = payload_of(kind, series);
    if raw_options.len() == 0 {
        configured(JsonModel::Object(Seq::empty()), kind, width, height, payload)
    } else {
        match parsed_document(raw_options) {
            Some(base) => configured(base, kind, width, height, payload),
            None => Err(ConfigError::InvalidJson),
        }
    }
}

/// The keys that a document's own entries go under differ from each other,
/// and so do the keys inside its `chart` object.
pub proof fn lemma_document_keys()
    ensures
        "chart"@ != "series"@,
        "chart"@ != "labels"@,
        "series"@ != "labels"@,
        "type"@ != "width"@,
        "type"@ != "height"@,
        "width"@ != "height"@,
{
    reveal_strlit("chart");
    reveal_strlit("series");
    reveal_strlit("labels");
    reveal_strlit("type");
    reveal_strlit("width");
    reveal_strlit("height");
    assert("chart"@[0] == 'c' && "series"@[0] == 's' && "labels"@[0] == 'l');
    assert("type"@[0] == 't' && "width"@[0] == 'w' && "height"@[0] == 'h');
}

/// A run of numbers as a JSON array.
fn number_json(numbers: &Vec<serde_json::Number>) -> (doc: Json)
    ensures
        doc@ == number_array(numbers@),
        doc.wf(),
{
    let mut items: Vec<Json> = Vec::new();
    let mut at: usize = 0;
    while at < numbers.len()
        invariant
            at <= numbers.len(),
            items@.len() == at,
            forall|j: int|
                0 <= j < at ==> (#[trigger] items@[j])@ == JsonModel::Number(numbers@[j])
                    && items@[j].wf(),
        decreases numbers.len() - at,
    {
        items.push(Json::Number(numbers[at].clone()));
        at += 1;
    }
    assert(items_model(items@) =~= numbers@.map_values(
        |n: serde_json::Number| JsonModel::Number(n),
    ));
    proof {
        lemma_array_wf(items@);
    }
    Json::Array(items)
}

/// A run of texts as a JSON array of strings.
fn string_json(texts: &Vec<String>) -> (doc: Json)
    ensures
        doc@ == string_array(texts_of(texts@)),
        doc.wf(),
{
    let mut items: Vec<Json> = Vec::new();
    let mut at: usize = 0;
    while at < texts.len()
        invariant
            at <= texts.len(),
            items@.len() == at,
            forall|j: int|
                0 <= j < at ==> (#[trigger] items@[j])@ == JsonModel::String(texts@[j]@)
                    && items@[j].wf(),
        decreases texts.len() - at,
    {
        items.push(Json::String(texts[at].clone()));
        at += 1;
    }
    assert(items_model(items@) =~= texts_of(texts@).map_values(
        |t: Seq<char>| JsonModel::String(t),
    ));
    proof {
        lemma_array_wf(items@);
    }
    Json::Array(items)
}

/// What the series contribute to a document of the given kind.
pub fn series_payload(kind: ChartType, series: &Vec<ChartSeries>) -> (payload: SeriesPayload)
    ensures
        payload@ == payload_of(kind, series_of(series@)),
        payload.series.wf(),
{
    if kind.is_radial() {
        if series.len() == 0 {
            let items: Vec<Json> = Vec::new();
            proof {
                lemma_array_wf(items@);
                assert(items_model(items@) =~= Seq::empty());
            }
            return SeriesPayload { series: Json::Array(items), labels: None };
        }
        match series[0].data.labels_and_magnitudes() {
            Some((labels, magnitudes)) => {
                return SeriesPayload { series: number_json(&magnitudes), labels: Some(labels) };
            },
            None => {},
        }
    }
    SeriesPayload { series: serialize_series(series), labels: None }
}

/// A copy of the entries of the `chart` object of `base`, or no entries
/// where `base` has no `chart` entry or has one that is not an object.
pub(crate) fn copy_chart_section(base: &Json) -> (section: Vec<(String, Json)>)
    requires
        base@ is Object,
    ensures
        entries_model(section@) == chart_section(base@->Object_0),
        base.wf() ==> JsonModel::Object(entries_model(section@)).wf(),
{
    let mut section: Vec<(String, Json)> = Vec::new();
    assert(entries_model(section@) =~= Seq::empty());
    if let Some(found) = base.get("chart") {
        if let Json::Object(entries) = found.duplicate() {
            section = entries;
        }
    }
    proof {
        if base.wf() {
            lemma_wf_children(base@);
            lemma_index_of(base@->Object_0, "chart"@);
            lemma_wf_children(JsonModel::Object(Seq::empty()));
        }
    }
    section
}

/// The `chart` object of `base` with the kind and both dimensions written
/// into it.
fn chart_json(base: &Json, kind: ChartType, width: &str, height: &str) -> (chart: Json)
    requires
        base@ is Object,
    ensures
        chart@ == JsonModel::Object(
            chart_entries(chart_section(base@->Object_0), kind, width@, height@),
        ),
        base.wf() ==> chart.wf(),
{
    let mut section = copy_chart_section(base);
    proof {
        if base.wf() {
            let first = entries_model(section@);
            let typed = with_entry(first, "type"@, JsonModel::String(kind.wire_name()));
            let wide = with_entry(typed, "width"@, JsonModel::String(width@));
            lemma_with_entry_wf(first, "type"@, JsonModel::String(kind.wire_name()));
            lemma_with_entry_wf(typed, "width"@, JsonModel::String(width@));
            lemma_with_entry_wf(wide, "height"@, JsonModel::String(height@));
        }
    }
    set_entry(&mut section, "type", Json::String(kind.to_string()));
    set_entry(&mut section, "width", Json::String(width.to_owned()));
    set_entry(&mut section, "height", Json::String(height.to_owned()));
    Json::Object(section)
}

/// Writes the kind, the dimensions and the series payload over an already
/// parsed document. Fails with `InvalidJson` exactly where `base` is not an
/// object.
pub fn configure(
    base: Json,
    kind: ChartType,
    width: &str,
    height: &str,
    payload: SeriesPayload,
) -> (outcome: Result<Json, ConfigError>)
    ensures
        match outcome {
            Ok(doc) => configured(base@, kind, width@, height@, payload@) == Ok::<
                JsonModel,
                ConfigError,
            >(doc@) && (base.wf() && payload.series.wf() ==> doc.wf()),
            Err(error) => configured(base@, kind, width@, height@, payload@) == Err::<
                JsonModel,
                ConfigError,
            >(error),
        },
{
    if let Json::Object(_) = &base {
    } else {
        return Err(ConfigError::InvalidJson);
    }
    let chart = chart_json(&base, kind, width, height);
    let ghost before = base@->Object_0;
    let ghost charted = with_entry(before, "chart"@, chart@);
    let ghost filled = with_entry(charted, "series"@, payload@.series);
    let mut entries: Vec<(String, Json)> = match base {
        Json::Object(entries) => entries,
        _ => Vec::new(),
    };
    set_entry(&mut entries, "chart", chart);
    set_entry(&mut entries, "series", payload.series);
    proof {
        if JsonModel::Object(before).wf() && payload@.series.wf() {
            lemma_with_entry_wf(before, "chart"@, chart@);
            lemma_with_entry_wf(charted, "series"@, payload@.series);
        }
    }
    if let Some(labels) = payload.labels {
        let listed = string_json(&labels);
        proof {
            if JsonModel::Object(filled).wf() {
                lemma_with_entry_wf(filled, "labels"@, listed@);
            }
        }
        set_entry(&mut entries, "labels", listed);
    }
    Ok(Json::Object(entries))
}

/// Builds the configuration document for a chart of the given kind and
/// dimensions from its series and the caller's raw options.
///
/// Fails with `InvalidJson` exactly where the raw options are not empty and
/// are not the text of a JSON object; nothing is built then.
pub fn build_options(
    kind: ChartType,
    width: &str,
    height: &str,
    raw_options: &str,
    series: &Vec<ChartSeries>,
) -> (outcome: Result<Json, ConfigError>)
    ensures
        match outcome {
            Ok(doc) => built(kind, width@, height@, raw_options@, series_of(series@)) == Ok::<
                JsonModel,
                ConfigError,
            >(doc@) && doc.wf(),
            Err(error) => built(kind, width@, height@, raw_options@, series_of(series@)) == Err::<
                JsonModel,
                ConfigError,
            >(error),
        },
{
    let payload = series_payload(kind, series);
    if raw_options.is_empty() {
        let nothing: Vec<(String, Json)> = Vec::new();
        let base = Json::Object(nothing);
        proof {
            assert(entries_model(nothing@) =~= Seq::empty());
            lemma_wf_children(base@);
        }
        configure(base, kind, width, height, payload)
    } else {
        match Json::parse(raw_options) {
            Ok(base) => configure(base, kind, width, height, payload),
            Err(error) => Err(error),
        }
    }
}

/// The typed inputs of a configuration document, gathered in one place.
#[derive(Clone, Debug, PartialEq)]
pub struct OptionsBuilder {
    pub chart_type: ChartType,
    /// A CSS length.
    pub width: String,
    /// A CSS length.
    pub height: String,
    /// The caller's own options as JSON text; may be empty.
    pub raw_options: String,
    pub series: Vec<ChartSeries>,
}

impl OptionsBuilder {
    /// The inputs for a chart of the given kind and series that is as wide
    /// as its container, as high as its content, and has no raw options.
    pub fn new(chart_type: ChartType, series: Vec<ChartSeries>) -> (builder: OptionsBuilder)
        ensures
            builder.chart_type == chart_type,
            builder.width@ == "100%"@,
            builder.height@ == "auto"@,
            builder.raw_options@ == Seq::<char>::empty(),
            builder.series == series,
    {
        OptionsBuilder {
            chart_type,
            width: "100%".to_owned(),
            height: "auto".to_owned(),
            raw_options: String::new(),
            series,
        }
    }

    /// Builds the configuration document from these inputs.
    pub fn build(&self) -> (outcome: Result<Json, ConfigError>)
        ensures
            match outcome {
                Ok(doc) => built(
                    self.chart_type,
                    self.width@,
                    self.height@,
                    self.raw_options@,
                    series_of(self.series@),
                ) == Ok::<JsonModel, ConfigError>(doc@) && doc.wf(),
                Err(error) => built(
                    self.chart_type,
                    self.width@,
                    self.height@,
                    self.raw_options@,
                    series_of(self.series@),
                ) == Err::<JsonModel, ConfigError>(error),
            },
    {
        build_options(
            self.chart_type,
            self.width.as_str(),
            self.height.as_str(),
            self.raw_options.as_str(),
            &self.series,
        )
    }
}

/// The entries of a document built without raw options: `chart` with the
/// kind and both dimensions, then `series`, then `labels` where the payload
/// has labels.
pub open spec fn minimal_entries(
    kind: ChartType,
    width: Seq<char>,
    height: Seq<char>,
    payload: PayloadModel,
) -> Seq<(Seq<char>, JsonModel)> {
    let chart = JsonModel::Object(
        seq![
            ("type"@, JsonModel::String(kind.wire_name())),
            ("width"@, JsonModel::String(width)),
            ("height"@, JsonModel::String(height)),
        ],
    );
    let required = seq![("chart"@, chart), ("series"@, payload.series)];
    match payload.labels {
        Some(labels) => required.push(("labels"@, string_array(labels))),
        None => required,
    }
}

/// Written over no entries at all, the typed inputs give the minimal
/// document.
pub proof fn lemma_configured_from_nothing(
    kind: ChartType,
    width: Seq<char>,
    height: Seq<char>,
    payload: PayloadModel,
)
    ensures
        configured_entries(Seq::empty(), kind, width, height, payload) == minimal_entries(
            kind,
            width,
            height,
            payload,
        ),
{
    lemma_document_keys();
    let none = Seq::<(Seq<char>, JsonModel)>::empty();
    let typed = with_entry(none, "type"@, JsonModel::String(kind.wire_name()));
    assert(typed =~= seq![("type"@, JsonModel::String(kind.wire_name()))]);
    lemma_index_of_is(typed, "width"@, 1);
    let wide = with_entry(typed, "width"@, JsonModel::String(width));
    assert(wide =~= seq![
        ("type"@, JsonModel::String(kind.wire_name())),
        ("width"@, JsonModel::String(width)),
    ]);
    lemma_index_of_is(wide, "height"@, 2);
    let section = with_entry(wide, "height"@, JsonModel::String(height));
    assert(section =~= seq![
        ("type"@, JsonModel::String(kind.wire_name())),
        ("width"@, JsonModel::String(width)),
        ("height"@, JsonModel::String(height)),
    ]);
    assert(chart_section(none) =~= none);
    let chart = JsonModel::Object(section);
    let charted = with_entry(none, "chart"@, chart);
    assert(charted =~= seq![("chart"@, chart)]);
    lemma_index_of_is(charted, "series"@, 1);
    let filled = with_entry(charted, "series"@, payload.series);
    assert(filled =~= seq![("chart"@, chart), ("series"@, payload.series)]);
    if let Some(labels) = payload.labels {
        lemma_index_of_is(filled, "labels"@, 2);
        assert(with_entry(filled, "labels"@, string_array(labels)) =~= filled.push(
            ("labels"@, string_array(labels)),
        ));
    }
}

/// Without raw options the build succeeds and gives the minimal document,
/// which has a `labels` entry only where the series contribute labels.
pub proof fn lemma_built_without_options(
    kind: ChartType,
    width: Seq<char>,
    height: Seq<char>,
    series: Seq<ChartSeriesModel>,
)
    ensures
        built(kind, width, height, Seq::empty(), series) == Ok::<JsonModel, ConfigError>(
            JsonModel::Object(minimal_entries(kind, width, height, payload_of(kind, series))),
        ),
        payload_of(kind, series).labels is None ==> lookup(
            minimal_entries(kind, width, height, payload_of(kind, series)),
            "labels"@,
        ) is None,
{
    let payload = payload_of(kind, series);
    lemma_configured_from_nothing(kind, width, height, payload);
    if payload.labels is None {
        lemma_document_keys();
        lemma_index_of_is(minimal_entries(kind, width, height, payload), "labels"@, 2);
    }
}

/// Over raw options that are the text of a JSON object the build succeeds.
/// The document holds the kind and both dimensions inside `chart`, the
/// payload under `series` and the labels, where the series contribute any,
/// under `labels`; every other entry of the raw options is found in it
/// under its key with the value it had.
pub proof fn lemma_built_over_options(
    kind: ChartType,
    width: Seq<char>,
    height: Seq<char>,
    raw_options: Seq<char>,
    series: Seq<ChartSeriesModel>,
)
    requires
        raw_options.len() > 0,
        parsed_document(raw_options) matches Some(JsonModel::Object(_)),
    ensures
        ({
            let base = parsed_document(raw_options)->0->Object_0;
            let payload = payload_of(kind, series);
            &&& built(kind, width, height, raw_options, series) matches Ok(
                JsonModel::Object(entries),
            )
            &&& entries == configured_entries(base, kind, width, height, payload)
            &&& lookup(entries, "chart"@) matches Some(JsonModel::Object(chart))
            &&& lookup(chart, "type"@) == Some(JsonModel::String(kind.wire_name()))
            &&& lookup(chart, "width"@) == Some(JsonModel::String(width))
            &&& lookup(chart, "height"@) == Some(JsonModel::String(height))
            &&& lookup(entries, "series"@) == Some(payload.series)
            &&& forall|key: Seq<char>|
                !owned_key(key, payload) ==> #[trigger] lookup(entries, key) == lookup(base, key)
            &&& forall|key: Seq<char>|
                !owned_chart_key(key) ==> #[trigger] lookup(chart, key) == lookup(
                    chart_section(base),
                    key,
                )
        }),
{
    let base = parsed_document(raw_options)->0->Object_0;
    let payload = payload_of(kind, series);
    lemma_configured_values(base, kind, width, height, payload);
    lemma_other_entries_pass_through(base, kind, width, height, payload);
}

/// A chart of the radial family without any series still builds: its
/// `series` entry is the empty array and it has no `labels` entry.
pub proof fn lemma_radial_without_series(kind: ChartType, width: Seq<char>, height: Seq<char>)
    requires
        kind.radial(),
    ensures
        built(kind, width, height, Seq::empty(), Seq::empty()) matches Ok(JsonModel::Object(entries))
            && lookup(entries, "series"@) == Some(JsonModel::Array(Seq::empty()))
            && lookup(entries, "labels"@) is None,
{
    let payload = payload_of(kind, Seq::empty());
    lemma_built_without_options(kind, width, height, Seq::empty());
    lemma_document_keys();
    let entries = minimal_entries(kind, width, height, payload);
    lemma_index_of_is(entries, "series"@, 1);
    lemma_index_of_is(entries, "labels"@, 2);
}

/// For a chart of the radial family whose first series holds radial data,
/// the `series` entry is the flat array of its magnitudes and the `labels`
/// entry names as many labels, both in the order of the points.
pub proof fn lemma_radial_payload(kind: ChartType, series: Seq<ChartSeriesModel>)
    requires
        kind.radial(),
        series.len() > 0,
        series[0].data is Radial,
    ensures
        payload_of(kind, series).series == number_array(series[0].data.magnitudes()->0),
        payload_of(kind, series).labels == series[0].data.labels(),
        payload_of(kind, series).labels->0.len() == series[0].data->Radial_0.len(),
        payload_of(kind, series).series->Array_0.len() == series[0].data->Radial_0.len(),
        forall|i: int|
            0 <= i < series[0].data->Radial_0.len() ==> {
                &&& #[trigger] payload_of(kind, series).series->Array_0[i] == JsonModel::Number(
                    series[0].data->Radial_0[i].1,
                )
                &&& payload_of(kind, series).labels->0[i] == series[0].data->Radial_0[i].0
            },
{
}

/// For every other chart the `series` entry is the array of all series
/// objects and the series contribute no labels.
pub proof fn lemma_plain_payload(kind: ChartType, series: Seq<ChartSeriesModel>)
    requires
        !kind.radial() || (series.len() > 0 && !(series[0].data is Radial)),
    ensures
        payload_of(kind, series).series == series_wire(series),
        payload_of(kind, series).labels is None,
{
}

/// The build fails exactly where the raw options are not empty and are not
/// the text of a JSON object, and it fails with `InvalidJson`.
pub proof fn lemma_build_fails_on_bad_options(
    kind: ChartType,
    width: Seq<char>,
    height: Seq<char>,
    raw_options: Seq<char>,
    series: Seq<ChartSeriesModel>,
)
    ensures
        built(kind, width, height, raw_options, series) is Err <==> raw_options.len() > 0 && !(
        parsed_document(raw_options) matches Some(JsonModel::Object(_))),
        built(kind, width, height, raw_options, series) matches Err(error) ==> error
            == ConfigError::InvalidJson,
{
}

/// What a configured document holds under the keys that the typed inputs
/// own: the kind and both dimensions inside `chart`, the payload under
/// `series`, and the labels under `labels` where the payload has labels.
pub proof fn lemma_configured_values(
    base: Seq<(Seq<char>, JsonModel)>,
    kind: ChartType,
    width: Seq<char>,
    height: Seq<char>,
    payload: PayloadModel,
)
    ensures
        ({
            let chart = chart_entries(chart_section(base), kind, width, height);
            let entries = configured_entries(base, kind, width, height, payload);
            &&& lookup(entries, "chart"@) == Some(JsonModel::Object(chart))
            &&& lookup(chart, "type"@) == Some(JsonModel::String(kind.wire_name()))
            &&& lookup(chart, "width"@) == Some(JsonModel::String(width))
            &&& lookup(chart, "height"@) == Some(JsonModel::String(height))
            &&& lookup(entries, "series"@) == Some(payload.series)
            &&& payload.labels matches Some(labels) ==> lookup(entries, "labels"@) == Some(
                string_array(labels),
            )
        }),
{
    lemma_document_keys();
    let section = chart_section(base);
    let typed = with_entry(section, "type"@, JsonModel::String(kind.wire_name()));
    let wide = with_entry(typed, "width"@, JsonModel::String(width));
    let chart = with_entry(wide, "height"@, JsonModel::String(height));
    lemma_with_entry(section, "type"@, JsonModel::String(kind.wire_name()));
    lemma_with_entry(typed, "width"@, JsonModel::String(width));
    lemma_with_entry(wide, "height"@, JsonModel::String(height));
    let charted = with_entry(base, "chart"@, JsonModel::Object(chart));
    let filled = with_entry(charted, "series"@, payload.series);
    lemma_with_entry(base, "chart"@, JsonModel::Object(chart));
    lemma_with_entry(charted, "series"@, payload.series);
    if let Some(labels) = payload.labels {
        lemma_with_entry(filled, "labels"@, string_array(labels));
    }
}

/// Whether `key` is one that the typed inputs write at the top of a document.
pub open spec fn owned_key(key: Seq<char>, payload: PayloadModel) -> bool {
    key == "chart"@ || key == "series"@ || (payload.labels is Some && key == "labels"@)
}

/// Whether `key` is one that the typed inputs write inside `chart`.
pub open spec fn owned_chart_key(key: Seq<char>) -> bool {
    key == "type"@ || key == "width"@ || key == "height"@
}

/// Every entry of the caller's own passes through: it keeps its place, its
/// key and its value, at the top of the document and inside `chart`, and a
/// lookup of its key finds what it found before.
pub proof fn lemma_other_entries_pass_through(
    base: Seq<(Seq<char>, JsonModel)>,
    kind: ChartType,
    width: Seq<char>,
    height: Seq<char>,
    payload: PayloadModel,
)
    ensures
        ({
            let section = chart_section(base);
            let chart = chart_entries(section, kind, width, height);
            let entries = configured_entries(base, kind, width, height, payload);
            &&& base.len() <= entries.len()
            &&& section.len() <= chart.len()
            &&& forall|i: int|
                0 <= i < base.len() && !owned_key(base[i].0, payload) ==> #[trigger] entries[i]
                    == base[i]
            &&& forall|i: int|
                0 <= i < section.len() && !owned_chart_key(section[i].0) ==> #[trigger] chart[i]
                    == section[i]
            &&& forall|key: Seq<char>|
                !owned_key(key, payload) ==> #[trigger] lookup(entries, key) == lookup(base, key)
            &&& forall|key: Seq<char>|
                !owned_chart_key(key) ==> #[trigger] lookup(chart, key) == lookup(section, key)
        }),
{
    let section = chart_section(base);
    let typed = with_entry(section, "type"@, JsonModel::String(kind.wire_name()));
    let wide = with_entry(typed, "width"@, JsonModel::String(width));
    let chart = with_entry(wide, "height"@, JsonModel::String(height));
    lemma_with_entry(section, "type"@, JsonModel::String(kind.wire_name()));
    lemma_with_entry(typed, "width"@, JsonModel::String(width));
    lemma_with_entry(wide, "height"@, JsonModel::String(height));
    lemma_with_entry_keeps_others(section, "type"@, JsonModel::String(kind.wire_name()));
    lemma_with_entry_keeps_others(typed, "width"@, JsonModel::String(width));
    lemma_with_entry_keeps_others(wide, "height"@, JsonModel::String(height));
    let charted = with_entry(base, "chart"@, JsonModel::Object(chart));
    let filled = with_entry(charted, "series"@, payload.series);
    lemma_with_entry(base, "chart"@, JsonModel::Object(chart));
    lemma_with_entry(charted, "series"@, payload.series);
    lemma_with_entry_keeps_others(base, "chart"@, JsonModel::Object(chart));
    lemma_with_entry_keeps_others(charted, "series"@, payload.series);
    if let Some(labels) = payload.labels {
        lemma_with_entry(filled, "labels"@, string_array(labels));
        lemma_with_entry_keeps_others(filled, "labels"@, string_array(labels));
    }
    let entries = configured_entries(base, kind, width, height, payload);
    assert forall|i: int|
        0 <= i < base.len() && !owned_key(base[i].0, payload) implies #[trigger] entries[i]
        == base[i] by {
        assert(charted[i] == base[i]);
        assert(filled[i] == charted[i]);
    }
    assert forall|i: int|
        0 <= i < section.len() && !owned_chart_key(section[i].0) implies #[trigger] chart[i]
        == section[i] by {
        assert(typed[i] == section[i]);
        assert(wide[i] == typed[i]);
    }
    assert forall|key: Seq<char>| !owned_key(key, payload) implies #[trigger] lookup(entries, key)
        == lookup(base, key) by {
        assert(lookup(charted, key) == lookup(base, key));
        assert(lookup(filled, key) == lookup(charted, key));
    }
    assert forall|key: Seq<char>| !owned_chart_key(key) implies #[trigger] lookup(chart, key)
        == lookup(section, key) by {
        assert(lookup(typed, key) == lookup(section, key));
        assert(lookup(wide, key) == lookup(typed, key));
    }
}

} // verus!
