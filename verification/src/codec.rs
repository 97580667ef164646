//! Reading and writing JSON text with `serde_json`.
//!
//! `serde_json` parses and prints; the library works on its own [`Json`] tree.
//! A `serde_json::Value` is opaque here: [`value_model`] names the document it
//! holds, and the two conversions below take a value apart and put one
//! together a level at a time.

use crate::error::ConfigError;
use crate::json::{entries_model, items_model, keys_distinct, lemma_wf_children, Json, JsonModel};
use vstd::prelude::*;

verus! {

/// `serde_json::Value`, a JSON document as `serde_json` holds it.
#[verifier::external_type_specification]
#[verifier::external_body]
pub struct ExValue(serde_json::Value);

/// `serde_json::Number`, a JSON number, whole or not. The library never
/// looks inside one: it carries numbers from where they come in to where
/// they are printed.
#[verifier::external_type_specification]
#[verifier::external_body]
pub struct ExNumber(serde_json::Number);

/// `serde_json::Error`, why a text was not parsed or a value not printed.
#[verifier::external_type_specification]
#[verifier::external_body]
pub struct ExError(serde_json::Error);

/// The document that a `serde_json::Value` holds.
pub uninterp spec fn value_model(value: serde_json::Value) -> JsonModel;

/// The number that `serde_json::Number::from` makes of a whole number.
pub uninterp spec fn integer_number(whole: int) -> serde_json::Number;

/// The document that `serde_json::from_str` reads from a text, or `None`
/// where it rejects the text.
pub uninterp spec fn parsed_document(text: Seq<char>) -> Option<JsonModel>;

/// The text that `serde_json::to_string` prints for a document, or `None`
/// where it gives an error.
pub uninterp spec fn document_text(doc: JsonModel) -> Option<Seq<char>>;

/// One level of a `serde_json::Value`: what kind of value it is and what it
/// holds, with the values inside it not yet taken apart.
pub(crate) enum ValueParts {
    Null,
    Bool(bool),
    Number(serde_json::Number),
    String(String),
    Array(Vec<serde_json::Value>),
    Object(Vec<(String, serde_json::Value)>),
}

/// The documents held by a run of values, one for one.
pub(crate) open spec fn values_model(values: Seq<serde_json::Value>) -> Seq<JsonModel> {
    Seq::new(values.len(), |i: int| value_model(values[i]))
}

/// The entries held by a run of keyed values, one for one.
pub(crate) open spec fn members_model(members: Seq<(String, serde_json::Value)>) -> Seq<
    (Seq<char>, JsonModel),
> {
    Seq::new(members.len(), |i: int| (members[i].0@, value_model(members[i].1)))
}

impl ValueParts {
    /// The document that a value with these parts holds.
    pub(crate) open spec fn model(self) -> JsonModel {
        match self {
            ValueParts::Null => JsonModel::Null,
            ValueParts::Bool(b) => JsonModel::Bool(b),
            ValueParts::Number(n) => JsonModel::Number(n),
            ValueParts::String(s) => JsonModel::String(s@),
            ValueParts::Array(values) => JsonModel::Array(values_model(values@)),
            ValueParts::Object(members) => JsonModel::Object(members_model(members@)),
        }
    }

    /// An object's parts name each key once.
    pub(crate) open spec fn keys_once(self) -> bool {
        self matches ValueParts::Object(members) ==> keys_distinct(members_model(members@))
    }
}

/// `Clone::clone` of `serde_json::Number`, which is derived: the copy is the
/// same number.
pub assume_specification[ <serde_json::Number as Clone>::clone ](
    number: &serde_json::Number,
) -> (copy: serde_json::Number)
    ensures
        copy == *number,
;

/// `serde_json::Number::from` on an `i64`. Trusted: the result depends on
/// the argument alone; `integer_number` names it.
#[verifier::external_body]
pub(crate) fn number_from_i64(whole: i64) -> (number: serde_json::Number)
    ensures
        number == integer_number(whole as int),
{
    serde_json::Number::from(whole)
}

/// `serde_json::from_str` at `serde_json::Value`: parses a JSON text.
/// Trusted: whether it succeeds and the document it gives depend on the text
/// alone; `parsed_document` names both.
#[verifier::external_body]
pub(crate) fn value_from_str(text: &str) -> (outcome: Result<serde_json::Value, serde_json::Error>)
    ensures
        match outcome {
            Ok(value) => parsed_document(text@) == Some(value_model(value)),
            Err(_) => parsed_document(text@) is None,
        },
{
    serde_json::from_str::<serde_json::Value>(text)
}

/// `serde_json::to_string` on a `serde_json::Value`: prints the document
/// that the value holds. Trusted: whether it succeeds and the text it gives
/// depend on that document alone; `document_text` names both.
#[verifier::external_body]
pub(crate) fn value_to_string(value: &serde_json::Value) -> (outcome: Result<
    String,
    serde_json::Error,
>)
    ensures
        match outcome {
            Ok(text) => document_text(value_model(*value)) == Some(text@),
            Err(_) => document_text(value_model(*value)) is None,
        },
{
    serde_json::to_string(value)
}

/// Takes a `serde_json::Value` apart by its variant, an object's map with
/// `serde_json::Map::into_iter`. Trusted: the parts are what the value held,
/// and the map hands out its entries in its own order, each key once.
#[verifier::external_body]
pub(crate) fn value_into_parts(value: serde_json::Value) -> (parts: ValueParts)
    ensures
        parts.model() == value_model(value),
        parts.keys_once(),
{
    match value {
        serde_json::Value::Null => ValueParts::Null,
        serde_json::Value::Bool(b) => ValueParts::Bool(b),
        serde_json::Value::Number(n) => ValueParts::Number(n),
        serde_json::Value::String(s) => ValueParts::String(s),
        serde_json::Value::Array(values) => ValueParts::Array(values),
        serde_json::Value::Object(map) => ValueParts::Object(map.into_iter().collect()),
    }
}

/// Builds the `serde_json::Value` of the matching variant, an object's map
/// with `FromIterator` for `serde_json::Map`. Trusted: the value holds what
/// the parts were; the map, which is insertion-ordered, keeps the entries in
/// the order given, as long as no key comes twice.
#[verifier::external_body]
pub(crate) fn value_from_parts(parts: ValueParts) -> (value: serde_json::Value)
    requires
        parts.keys_once(),
    ensures
        value_model(value) == parts.model(),
{
    match parts {
        ValueParts::Null => serde_json::Value::Null,
        ValueParts::Bool(b) => serde_json::Value::Bool(b),
        ValueParts::Number(n) => serde_json::Value::Number(n),
        ValueParts::String(s) => serde_json::Value::String(s),
        ValueParts::Array(values) => serde_json::Value::Array(values),
        ValueParts::Object(members) => serde_json::Value::Object(members.into_iter().collect()),
    }
}

/// The text printed for a document, empty where printing gives an error.
pub open spec fn rendered(doc: JsonModel) -> Seq<char> {
    match document_text(doc) {
        Some(text) => text,
        None => Seq::empty(),
    }
}

impl Json {
    /// The JSON number for a whole number.
    pub fn integer(whole: i64) -> (doc: Json)
        ensures
            doc@ == JsonModel::Number(integer_number(whole as int)),
    {
        Json::Number(number_from_i64(whole))
    }

    /// The same document as a `serde_json::Value`.
    #[verifier::loop_isolation(false)]
    pub fn to_value(&self) -> (value: serde_json::Value)
        requires
            self.wf(),
        ensures
            value_model(value) == self@,
        decreases self,
    {
        proof {
            lemma_wf_children(self@);
        }
        match self {
            Json::Null => value_from_parts(ValueParts::Null),
            Json::Bool(b) => value_from_parts(ValueParts::Bool(*b)),
            Json::Number(n) => value_from_parts(ValueParts::Number(n.clone())),
            Json::String(s) => value_from_parts(ValueParts::String(s.clone())),
            Json::Array(items) => {
                let mut values: Vec<serde_json::Value> = Vec::new();
                let mut at: usize = 0;
                while at < items.len()
                    invariant
                        at <= items.len(),
                        values_model(values@) =~= items_model(items@).take(at as int),
                    decreases items.len() - at,
                {
                    assert(items_model(items@)[at as int].wf());
                    let value = items[at].to_value();
                    values.push(value);
                    at += 1;
                }
                assert(items_model(items@).take(at as int) =~= items_model(items@));
                value_from_parts(ValueParts::Array(values))
            },
            Json::Object(entries) => {
                let mut members: Vec<(String, serde_json::Value)> = Vec::new();
                let mut at: usize = 0;
                while at < entries.len()
                    invariant
                        at <= entries.len(),
                        members_model(members@) =~= entries_model(entries@).take(at as int),
                    decreases entries.len() - at,
                {
                    assert(entries_model(entries@)[at as int].1.wf());
                    let value = entries[at].1.to_value();
                    members.push((entries[at].0.clone(), value));
                    at += 1;
                }
                assert(entries_model(entries@).take(at as int) =~= entries_model(entries@));
                value_from_parts(ValueParts::Object(members))
            },
        }
    }

    /// The document that a `serde_json::Value` holds. The values inside an
    /// array or an object are taken from the back, converted, and turned
    /// round at the end.
    #[verifier::loop_isolation(false)]
    pub fn from_value(value: serde_json::Value) -> (doc: Json)
        ensures
            doc@ == value_model(value),
            doc.wf(),
        decreases value_model(value),
    {
        let ghost whole = value_model(value);
        match value_into_parts(value) {
            ValueParts::Null => Json::Null,
            ValueParts::Bool(b) => Json::Bool(b),
            ValueParts::Number(n) => Json::Number(n),
            ValueParts::String(s) => Json::String(s),
            ValueParts::Array(values) => {
                let ghost models = values_model(values@);
                let mut values = values;
                let mut reversed: Vec<Json> = Vec::new();
                while values.len() > 0
                    invariant
                        values@.len() + reversed@.len() == models.len(),
                        values_model(values@) =~= models.take(values@.len() as int),
                        forall|j: int|
                            0 <= j < reversed@.len() ==> {
                                &&& (#[trigger] reversed@[j])@ == models[models.len() - 1 - j]
                                &&& reversed@[j].wf()
                            },
                    decreases values@.len(),
                {
                    let ghost last = values@.len() - 1;
                    assert(values_model(values@)[last] == models[last]);
                    let inner = values.pop().unwrap();
                    assert(decreases_to!(whole => whole->Array_0));
                    assert(decreases_to!(whole->Array_0 => whole->Array_0[last]));
                    reversed.push(Json::from_value(inner));
                }
                let items = reverse(reversed);
                assert(items_model(items@) =~= models);
                proof {
                    lemma_wf_children(JsonModel::Array(models));
                }
                Json::Array(items)
            },
            ValueParts::Object(members) => {
                let ghost models = members_model(members@);
                let mut members = members;
                let mut reversed: Vec<(String, Json)> = Vec::new();
                while members.len() > 0
                    invariant
                        members@.len() + reversed@.len() == models.len(),
                        members_model(members@) =~= models.take(members@.len() as int),
                        forall|j: int|
                            0 <= j < reversed@.len() ==> {
                                &&& (#[trigger] reversed@[j]).0@ == models[models.len() - 1 - j].0
                                &&& reversed@[j].1@ == models[models.len() - 1 - j].1
                                &&& reversed@[j].1.wf()
                            },
                    decreases members@.len(),
                {
                    let ghost last = members@.len() - 1;
                    assert(members_model(members@)[last] == models[last]);
                    let (key, inner) = members.pop().unwrap();
                    assert(decreases_to!(whole => whole->Object_0));
                    assert(decreases_to!(whole->Object_0 => whole->Object_0[last]));
                    assert(decreases_to!(whole->Object_0[last] => whole->Object_0[last].1));
                    reversed.push((key, Json::from_value(inner)));
                }
                let entries = reverse(reversed);
                assert(entries_model(entries@) =~= models);
                proof {
                    lemma_wf_children(JsonModel::Object(models));
                }
                Json::Object(entries)
            },
        }
    }

    /// The document as JSON text.
    pub fn to_text(&self) -> (text: String)
        requires
            self.wf(),
        ensures
            text@ == rendered(self@),
    {
        let value = self.to_value();
        match value_to_string(&value) {
            Ok(text) => text,
            Err(_) => String::new(),
        }
    }

    /// Reads a JSON text. Fails with `InvalidJson` exactly where the parser
    /// rejects the text.
    pub fn parse(text: &str) -> (outcome: Result<Json, ConfigError>)
        ensures
            match outcome {
                Ok(doc) => parsed_document(text@) == Some(doc@) && doc.wf(),
                Err(error) => parsed_document(text@) is None && error == ConfigError::InvalidJson,
            },
    {
        match value_from_str(text) {
            Ok(value) => Ok(Json::from_value(value)),
            Err(_) => Err(ConfigError::InvalidJson),
        }
    }
}

/// The same items, last first.
fn reverse<T>(items: Vec<T>) -> (turned: Vec<T>)
    ensures
        turned@ == items@.reverse(),
{
    let ghost before = items@;
    let mut items = items;
    let mut turned: Vec<T> = Vec::new();
    while items.len() > 0
        invariant
            items@.len() + turned@.len() == before.len(),
            items@ =~= before.take(items@.len() as int),
            forall|j: int|
                0 <= j < turned@.len() ==> #[trigger] turned@[j] == before[before.len() - 1 - j],
        decreases items@.len(),
    {
        let item = items.pop().unwrap();
        turned.push(item);
    }
    assert(turned@ =~= before.reverse());
    turned
}

} // verus!
