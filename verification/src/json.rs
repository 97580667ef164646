//! JSON documents as a tree the library can read and rewrite.
//!
//! [`Json`] is the executable tree; [`JsonModel`] is its mathematical view.
//! Objects keep their entries in order, and a well-formed tree
//! ([`JsonModel::wf`]) has no key twice in one object.

use vstd::prelude::*;

verus! {

/// The mathematical value of a JSON document.
pub enum JsonModel {
    Null,
    Bool(bool),
    Number(serde_json::Number),
    String(Seq<char>),
    Array(Seq<JsonModel>),
    /// The entries of an object, in order.
    Object(Seq<(Seq<char>, JsonModel)>),
}

/// A JSON document.
#[derive(Debug, PartialEq)]
pub enum Json {
    Null,
    Bool(bool),
    Number(serde_json::Number),
    String(String),
    Array(Vec<Json>),
    /// The entries of an object, in order.
    Object(Vec<(String, Json)>),
}

/// The values of a run of documents, one for one. (The closure is never
/// asked for a place outside the run; the branch for it is there to show
/// that the definition ends.)
pub open spec fn items_model(items: Seq<Json>) -> Seq<JsonModel>
    decreases items,
{
    Seq::new(
        items.len(),
        |i: int|
            if 0 <= i < items.len() {
                items[i].view()
            } else {
                JsonModel::Null
            },
    )
}

/// The values of a run of object entries, one for one.
pub open spec fn entries_model(entries: Seq<(String, Json)>) -> Seq<(Seq<char>, JsonModel)>
    decreases entries,
{
    Seq::new(
        entries.len(),
        |i: int|
            if 0 <= i < entries.len() {
                (entries[i].0@, entries[i].1.view())
            } else {
                (Seq::empty(), JsonModel::Null)
            },
    )
}

impl View for Json {
    type V = JsonModel;

    open spec fn view(&self) -> JsonModel
        decreases self,
    {
        match self {
            Json::Null => JsonModel::Null,
            Json::Bool(b) => JsonModel::Bool(*b),
            Json::Number(n) => JsonModel::Number(*n),
            Json::String(s) => JsonModel::String(s@),
            Json::Array(items) => JsonModel::Array(items_model(items@)),
            Json::Object(entries) => JsonModel::Object(entries_model(entries@)),
        }
    }
}

/// No key stands at two places among `entries`.
pub open spec fn keys_distinct(entries: Seq<(Seq<char>, JsonModel)>) -> bool {
    forall|i: int, j: int|
        0 <= i < j < entries.len() ==> (#[trigger] entries[i]).0 != (#[trigger] entries[j]).0
}

/// The place of the first entry under `key`, or the number of entries where
/// there is none.
pub open spec fn index_of(entries: Seq<(Seq<char>, JsonModel)>, key: Seq<char>) -> int
    decreases entries.len(),
{
    if entries.len() == 0 {
        0
    } else if entries[0].0 == key {
        0
    } else {
        1 + index_of(entries.drop_first(), key)
    }
}

/// The value of the first entry under `key`.
pub open spec fn lookup(entries: Seq<(Seq<char>, JsonModel)>, key: Seq<char>) -> Option<JsonModel> {
    let at = index_of(entries, key);
    if at < entries.len() {
        Some(entries[at].1)
    } else {
        None
    }
}

/// `entries` with `value` under `key`: in the place of the first entry under
/// that key, or at the end where there is none.
pub open spec fn with_entry(
    entries: Seq<(Seq<char>, JsonModel)>,
    key: Seq<char>,
    value: JsonModel,
) -> Seq<(Seq<char>, JsonModel)> {
    let at = index_of(entries, key);
    if at < entries.len() {
        entries.update(at, (key, value))
    } else {
        entries.push((key, value))
    }
}

impl JsonModel {
    /// Every object in the document names each of its keys once.
    pub open spec fn wf(self) -> bool
        decreases self,
    {
        match self {
            JsonModel::Array(items) => {
                forall|i: int| 0 <= i < items.len() ==> (#[trigger] items[i]).wf()
            },
            JsonModel::Object(entries) => {
                &&& keys_distinct(entries)
                &&& forall|i: int| 0 <= i < entries.len() ==> (#[trigger] entries[i]).1.wf()
            },
            _ => true,
        }
    }

    /// The value under `key`, where the document is an object that has one.
    pub open spec fn get(self, key: Seq<char>) -> Option<JsonModel> {
        match self {
            JsonModel::Object(entries) => lookup(entries, key),
            _ => None,
        }
    }
}

/// A document is well formed exactly when its objects' keys are distinct and
/// what is inside it is well formed.
pub proof fn lemma_wf_children(doc: JsonModel)
    ensures
        doc.wf() <==> match doc {
            JsonModel::Array(items) => {
                forall|i: int| 0 <= i < items.len() ==> (#[trigger] items[i]).wf()
            },
            JsonModel::Object(entries) => {
                &&& keys_distinct(entries)
                &&& forall|i: int| 0 <= i < entries.len() ==> (#[trigger] entries[i]).1.wf()
            },
            _ => true,
        },
{
}

/// An array is well formed when its items are.
pub proof fn lemma_array_wf(items: Seq<Json>)
    requires
        forall|j: int| 0 <= j < items.len() ==> (#[trigger] items[j]).wf(),
    ensures
        JsonModel::Array(items_model(items)).wf(),
{
    lemma_wf_children(JsonModel::Array(items_model(items)));
}

/// `index_of` stays within the entries, points at an entry under `key` where
/// it points at one, and passes no entry under `key` on its way.
pub proof fn lemma_index_of(entries: Seq<(Seq<char>, JsonModel)>, key: Seq<char>)
    ensures
        0 <= index_of(entries, key) <= entries.len(),
        index_of(entries, key) < entries.len() ==> entries[index_of(entries, key)].0 == key,
        forall|j: int| 0 <= j < index_of(entries, key) ==> (#[trigger] entries[j]).0 != key,
    decreases entries.len(),
{
    if entries.len() > 0 && entries[0].0 != key {
        let rest = entries.drop_first();
        lemma_index_of(rest, key);
        assert forall|j: int| 0 <= j < index_of(entries, key) implies (#[trigger] entries[j]).0
            != key by {
            if j > 0 {
                assert(entries[j] == rest[j - 1]);
            }
        }
    }
}

/// A place that holds `key`, or the end, with no entry under `key` before it,
/// is what `index_of` finds.
pub proof fn lemma_index_of_is(entries: Seq<(Seq<char>, JsonModel)>, key: Seq<char>, at: int)
    requires
        0 <= at <= entries.len(),
        at < entries.len() ==> entries[at].0 == key,
        forall|j: int| 0 <= j < at ==> (#[trigger] entries[j]).0 != key,
    ensures
        index_of(entries, key) == at,
{
    lemma_index_of(entries, key);
    let found = index_of(entries, key);
    if found < at {
        assert(entries[found].0 != key);
    }
}

/// After `with_entry` the key is present with the new value, every other key
/// has the value it had, the entries that were there keep their places and
/// keys, and at most one entry is added.
pub proof fn lemma_with_entry(
    entries: Seq<(Seq<char>, JsonModel)>,
    key: Seq<char>,
    value: JsonModel,
)
    ensures
        lookup(with_entry(entries, key, value), key) == Some(value),
        forall|other: Seq<char>|
            other != key ==> #[trigger] lookup(with_entry(entries, key, value), other) == lookup(
                entries,
                other,
            ),
        entries.len() <= with_entry(entries, key, value).len() <= entries.len() + 1,
        forall|i: int|
            0 <= i < entries.len() ==> (#[trigger] with_entry(entries, key, value)[i]).0
                == entries[i].0,
        keys_distinct(entries) ==> keys_distinct(with_entry(entries, key, value)),
{
    let after = with_entry(entries, key, value);
    let at = index_of(entries, key);
    lemma_index_of(entries, key);
    lemma_index_of_is(after, key, at);
    assert forall|other: Seq<char>| other != key implies #[trigger] lookup(after, other) == lookup(
        entries,
        other,
    ) by {
        let there = index_of(entries, other);
        lemma_index_of(entries, other);
        if there < entries.len() {
            assert(there != at);
        }
        assert forall|j: int| 0 <= j < there implies (#[trigger] after[j]).0 != other by {
            if j != at {
                assert(after[j] == entries[j]);
            }
        }
        if there < entries.len() {
            lemma_index_of_is(after, other, there);
        } else {
            lemma_index_of_is(after, other, after.len() as int);
        }
    }
    if keys_distinct(entries) {
        assert forall|i: int, j: int| 0 <= i < j < after.len() implies (#[trigger] after[i]).0 != (
        #[trigger] after[j]).0 by {
            if i < entries.len() && i != at {
                assert(after[i] == entries[i]);
            }
            if j < entries.len() && j != at {
                assert(after[j] == entries[j]);
            }
        }
    }
}

/// `with_entry` leaves every entry under another key as it was, in its place.
pub proof fn lemma_with_entry_keeps_others(
    entries: Seq<(Seq<char>, JsonModel)>,
    key: Seq<char>,
    value: JsonModel,
)
    ensures
        forall|i: int|
            0 <= i < entries.len() && entries[i].0 != key ==> #[trigger] with_entry(
                entries,
                key,
                value,
            )[i] == entries[i],
{
    lemma_index_of(entries, key);
}

/// Putting a well-formed value into a well-formed object leaves it well
/// formed.
pub proof fn lemma_with_entry_wf(
    entries: Seq<(Seq<char>, JsonModel)>,
    key: Seq<char>,
    value: JsonModel,
)
    requires
        JsonModel::Object(entries).wf(),
        value.wf(),
    ensures
        JsonModel::Object(with_entry(entries, key, value)).wf(),
{
    let after = with_entry(entries, key, value);
    lemma_wf_children(JsonModel::Object(entries));
    lemma_wf_children(JsonModel::Object(after));
    lemma_with_entry(entries, key, value);
    lemma_index_of(entries, key);
    assert forall|i: int| 0 <= i < after.len() implies (#[trigger] after[i]).1.wf() by {
        if i < entries.len() && i != index_of(entries, key) {
            assert(after[i] == entries[i]);
        }
    }
}

/// The place of the first entry under `key`, or the number of entries where
/// there is none.
pub fn find_key(entries: &Vec<(String, Json)>, key: &String) -> (at: usize)
    ensures
        at == index_of(entries_model(entries@), key@),
{
    let mut at: usize = 0;
    while at < entries.len() && !(entries[at].0 == *key)
        invariant
            at <= entries.len(),
            forall|j: int| 0 <= j < at ==> (#[trigger] entries_model(entries@)[j]).0 != key@,
        decreases entries.len() - at,
    {
        at += 1;
    }
    proof {
        lemma_index_of_is(entries_model(entries@), key@, at as int);
    }
    at
}

/// Puts `value` under `key`: in the place of the first entry under that key,
/// or at the end where there is none.
pub fn set_entry(entries: &mut Vec<(String, Json)>, key: &str, value: Json)
    ensures
        entries_model(final(entries)@) == with_entry(entries_model(old(entries)@), key@, value@),
{
    let owned: String = key.to_owned();
    let at: usize = find_key(entries, &owned);
    if at < entries.len() {
        entries.set(at, (owned, value));
    } else {
        entries.push((owned, value));
    }
    assert(entries_model(entries@) =~= with_entry(entries_model(old(entries)@), key@, value@));
}

impl Json {
    /// Every object in the document names each of its keys once.
    pub open spec fn wf(&self) -> bool {
        self@.wf()
    }

    /// The value under `key`, where the document is an object that has one.
    pub fn get(&self, key: &str) -> (found: Option<&Json>)
        ensures
            match found {
                Some(value) => self@.get(key@) == Some(value@),
                None => self@.get(key@) is None,
            },
    {
        match self {
            Json::Object(entries) => {
                let owned: String = key.to_owned();
                let at: usize = find_key(entries, &owned);
                if at < entries.len() {
                    Some(&entries[at].1)
                } else {
                    None
                }
            },
            _ => None,
        }
    }

    /// A copy of the document.
    #[verifier::loop_isolation(false)]
    pub fn duplicate(&self) -> (copy: Json)
        ensures
            copy@ == self@,
        decreases self,
    {
        match self {
            Json::Null => Json::Null,
            Json::Bool(b) => Json::Bool(*b),
            Json::Number(n) => Json::Number(n.clone()),
            Json::String(s) => Json::String(s.clone()),
            Json::Array(items) => {
                let mut copies: Vec<Json> = Vec::new();
                let mut at: usize = 0;
                while at < items.len()
                    invariant
                        at <= items.len(),
                        items_model(copies@) =~= items_model(items@).take(at as int),
                    decreases items.len() - at,
                {
                    copies.push(items[at].duplicate());
                    at += 1;
                }
                assert(items_model(items@).take(at as int) =~= items_model(items@));
                Json::Array(copies)
            },
            Json::Object(entries) => {
                let mut copies: Vec<(String, Json)> = Vec::new();
                let mut at: usize = 0;
                while at < entries.len()
                    invariant
                        at <= entries.len(),
                        entries_model(copies@) =~= entries_model(entries@).take(at as int),
                    decreases entries.len() - at,
                {
                    copies.push((entries[at].0.clone(), entries[at].1.duplicate()));
                    at += 1;
                }
                assert(entries_model(entries@).take(at as int) =~= entries_model(entries@));
                Json::Object(copies)
            },
        }
    }

    /// Whether every object in the document names each of its keys once.
    #[verifier::loop_isolation(false)]
    pub fn is_well_formed(&self) -> (ok: bool)
        ensures
            ok == self.wf(),
        decreases self,
    {
        match self {
            Json::Array(items) => {
                let mut at: usize = 0;
                while at < items.len()
                    invariant
                        at <= items.len(),
                        forall|j: int| 0 <= j < at ==> (#[trigger] items_model(items@)[j]).wf(),
                    decreases items.len() - at,
                {
                    if !items[at].is_well_formed() {
                        proof {
                            lemma_wf_children(self@);
                            assert(!items_model(items@)[at as int].wf());
                        }
                        return false;
                    }
                    at += 1;
                }
                true
            },
            Json::Object(entries) => {
                if !has_distinct_keys(entries) {
                    return false;
                }
                let mut at: usize = 0;
                while at < entries.len()
                    invariant
                        at <= entries.len(),
                        forall|j: int|
                            0 <= j < at ==> (#[trigger] entries_model(entries@)[j]).1.wf(),
                    decreases entries.len() - at,
                {
                    if !entries[at].1.is_well_formed() {
                        proof {
                            lemma_wf_children(self@);
                            assert(!entries_model(entries@)[at as int].1.wf());
                        }
                        return false;
                    }
                    at += 1;
                }
                true
            },
            _ => true,
        }
    }
}

/// Whether no key stands at two places among `entries`.
pub fn has_distinct_keys(entries: &Vec<(String, Json)>) -> (ok: bool)
    ensures
        ok == keys_distinct(entries_model(entries@)),
{
    let ghost model = entries_model(entries@);
    let mut later: usize = 0;
    while later < entries.len()
        invariant
            later <= entries.len(),
            model == entries_model(entries@),
            forall|i: int, j: int|
                0 <= i < j < later ==> (#[trigger] model[i]).0 != (#[trigger] model[j]).0,
        decreases entries.len() - later,
    {
        let mut earlier: usize = 0;
        while earlier < later
            invariant
                earlier <= later < entries.len(),
                model == entries_model(entries@),
                forall|i: int| 0 <= i < earlier ==> (#[trigger] model[i]).0 != model[later as int].0,
            decreases later - earlier,
        {
            if entries[earlier].0 == entries[later].0 {
                assert(model[earlier as int].0 == model[later as int].0);
                return false;
            }
            earlier += 1;
        }
        later += 1;
    }
    true
}

} // verus!
