//! Raw options as they are loaded, and the one change that can be made to
//! them on their own: setting the kind of chart.

use crate::chart_type::ChartType;
use crate::codec::parsed_document;
use crate::error::ConfigError;
use crate::json::{
    entries_model, lemma_with_entry, lemma_with_entry_keeps_others, lemma_with_entry_wf, lookup,
    set_entry, with_entry, Json, JsonModel,
};
use crate::options::{chart_section, copy_chart_section};
use vstd::prelude::*;

verus! {

/// The entries of a document with the chart kind written into its `chart`
/// object and nothing else changed.
pub open spec fn overridden_entries(
    base: Seq<(Seq<char>, JsonModel)>,
    kind: ChartType,
) -> Seq<(Seq<char>, JsonModel)> {
    let chart = with_entry(chart_section(base), "type"@, JsonModel::String(kind.wire_name()));
    with_entry(base, "chart"@, JsonModel::Object(chart))
}

/// The outcome of overriding the chart kind of an already parsed document:
/// the changed object where `base` is an object, `InvalidJson` where it is
/// anything else.
pub open spec fn overridden(base: JsonModel, kind: ChartType) -> Result<JsonModel, ConfigError> {
    match base {
        JsonModel::Object(entries) => Ok(JsonModel::Object(overridden_entries(entries, kind))),
        _ => Err(ConfigError::InvalidJson),
    }
}

/// The outcome of overriding the chart kind in raw options.
pub open spec fn overridden_text(raw_options: Seq<char>, kind: ChartType) -> Result<
    JsonModel,
    ConfigError,
> {
    match parsed_document(raw_options) {
        Some(base) => overridden(base, kind),
        None => Err(ConfigError::InvalidJson),
    }
}

/// Writes the chart kind into the `chart` object of an already parsed
/// document. Fails with `InvalidJson` exactly where `base` is not an object.
pub fn override_chart_type(base: Json, kind: ChartType) -> (outcome: Result<Json, ConfigError>)
    ensures
        match outcome {
            Ok(doc) => overridden(base@, kind) == Ok::<JsonModel, ConfigError>(doc@) && (base.wf()
                ==> doc.wf()),
            Err(error) => overridden(base@, kind) == Err::<JsonModel, ConfigError>(error),
        },
{
    if let Json::Object(_) = &base {
    } else {
        return Err(ConfigError::InvalidJson);
    }
    let mut section = copy_chart_section(&base);
    let ghost before = base@->Object_0;
    proof {
        if base.wf() {
            let first = entries_model(section@);
            let typed = with_entry(first, "type"@, JsonModel::String(kind.wire_name()));
            lemma_with_entry_wf(first, "type"@, JsonModel::String(kind.wire_name()));
            lemma_with_entry_wf(before, "chart"@, JsonModel::Object(typed));
        }
    }
    set_entry(&mut section, "type", Json::String(kind.to_string()));
    let mut entries: Vec<(String, Json)> = match base {
        Json::Object(entries) => entries,
        _ => Vec::new(),
    };
    set_entry(&mut entries, "chart", Json::Object(section));
    Ok(Json::Object(entries))
}

/// Raw options as they were loaded, before anything is written over them.
#[derive(Clone, Debug, PartialEq)]
pub struct ChartOptions {
    pub options: String,
}

impl View for ChartOptions {
    type V = Seq<char>;

    open spec fn view(&self) -> Seq<char> {
        self.options@
    }
}

impl ChartOptions {
    /// Raw options from their JSON text.
    pub fn from_string(text: String) -> (loaded: ChartOptions)
        ensures
            loaded@ == text@,
    {
        ChartOptions { options: text }
    }

    /// The document of these options with the chart kind set to `kind` and
    /// every other entry as it was. Fails with `InvalidJson` exactly where
    /// the options are not the text of a JSON object.
    pub fn with_chart_type_override(&self, kind: ChartType) -> (outcome: Result<
        Json,
        ConfigError,
    >)
        ensures
            match outcome {
                Ok(doc) => overridden_text(self@, kind) == Ok::<JsonModel, ConfigError>(doc@)
                    && doc.wf(),
                Err(error) => overridden_text(self@, kind) == Err::<JsonModel, ConfigError>(error),
            },
    {
        match Json::parse(self.options.as_str()) {
            Ok(base) => override_chart_type(base, kind),
            Err(error) => Err(error),
        }
    }
}

/// Overriding the chart kind sets `chart.type` and changes nothing else:
/// every other entry, at the top of the document and inside `chart`, keeps
/// its place, its key and its value.
pub proof fn lemma_override_keeps_other_entries(base: Seq<(Seq<char>, JsonModel)>, kind: ChartType)
    ensures
        ({
            let section = chart_section(base);
            let chart = with_entry(section, "type"@, JsonModel::String(kind.wire_name()));
            let entries = overridden_entries(base, kind);
            &&& lookup(entries, "chart"@) == Some(JsonModel::Object(chart))
            &&& lookup(chart, "type"@) == Some(JsonModel::String(kind.wire_name()))
            &&& forall|i: int|
                0 <= i < base.len() && base[i].0 != "chart"@ ==> #[trigger] entries[i] == base[i]
            &&& forall|i: int|
                0 <= i < section.len() && section[i].0 != "type"@ ==> #[trigger] chart[i]
                    == section[i]
            &&& forall|key: Seq<char>|
                key != "chart"@ ==> #[trigger] lookup(entries, key) == lookup(base, key)
            &&& forall|key: Seq<char>|
                key != "type"@ ==> #[trigger] lookup(chart, key) == lookup(section, key)
        }),
{
    let section = chart_section(base);
    let chart = with_entry(section, "type"@, JsonModel::String(kind.wire_name()));
    lemma_with_entry(section, "type"@, JsonModel::String(kind.wire_name()));
    lemma_with_entry_keeps_others(section, "type"@, JsonModel::String(kind.wire_name()));
    lemma_with_entry(base, "chart"@, JsonModel::Object(chart));
    lemma_with_entry_keeps_others(base, "chart"@, JsonModel::Object(chart));
}

} // verus!
