use apexcharts_rs::json::{find_key, has_distinct_keys, set_entry, Json};
use apexcharts_rs::prelude::ConfigError;
use serde_json::{Number, Value};

fn entry(key: &str, value: Json) -> (String, Json) {
    (key.to_string(), value)
}

#[test]
fn parse_and_print_keep_key_order() {
    let text = r#"{"b":1,"a":[true,null,"x",2.5,-7,18446744073709551615],"c":{"z":{},"y":[]}}"#;
    let doc = Json::parse(text).unwrap();
    assert!(doc.is_well_formed());
    assert_eq!(doc.to_text(), text);
}

#[test]
fn parse_reads_each_kind_of_value() {
    assert_eq!(Json::parse("null"), Ok(Json::Null));
    assert_eq!(Json::parse("true"), Ok(Json::Bool(true)));
    assert_eq!(Json::parse("\"a\\nb\""), Ok(Json::String("a\nb".to_string())));
    assert_eq!(Json::parse("12"), Ok(Json::Number(Number::from(12))));
    assert_eq!(Json::parse("12"), Ok(Json::integer(12)));
    assert_eq!(Json::parse("[1,[2]]"), Ok(Json::Array(vec![
        Json::integer(1),
        Json::Array(vec![Json::integer(2)]),
    ])));
    assert_eq!(
        Json::parse(r#"{"k":{"l":false}}"#),
        Ok(Json::Object(vec![entry("k", Json::Object(vec![entry("l", Json::Bool(false))]))]))
    );
}

#[test]
fn parse_keeps_the_last_of_a_repeated_key() {
    let doc = Json::parse(r#"{"a":1,"b":2,"a":3}"#).unwrap();
    assert!(doc.is_well_formed());
    assert_eq!(doc.to_text(), r#"{"a":3,"b":2}"#);
}

#[test]
fn parse_rejects_malformed_text() {
    assert_eq!(Json::parse("{not json"), Err(ConfigError::InvalidJson));
    assert_eq!(Json::parse(""), Err(ConfigError::InvalidJson));
    assert_eq!(Json::parse("{\"a\":}"), Err(ConfigError::InvalidJson));
    assert_eq!(Json::parse("[1,]"), Err(ConfigError::InvalidJson));
}

#[test]
fn integer_makes_the_json_number() {
    assert_eq!(Json::integer(30).to_text(), "30");
    assert_eq!(Json::integer(-1).to_text(), "-1");
    assert_eq!(Json::integer(0), Json::Number(Number::from(0)));
}

#[test]
fn to_value_builds_the_same_document() {
    let doc = Json::Object(vec![
        entry("z", Json::Array(vec![Json::Null, Json::Bool(false), Json::integer(5)])),
        entry("a", Json::String("s".to_string())),
        entry("n", Json::Number(Number::from_f64(1.5).unwrap())),
    ]);
    let mut map = serde_json::Map::new();
    map.insert(
        "z".to_string(),
        Value::Array(vec![Value::Null, Value::Bool(false), Value::Number(Number::from(5))]),
    );
    map.insert("a".to_string(), Value::String("s".to_string()));
    map.insert("n".to_string(), Value::Number(Number::from_f64(1.5).unwrap()));
    let expected = Value::Object(map);
    assert_eq!(doc.to_value(), expected);
    assert_eq!(serde_json::to_string(&doc.to_value()).unwrap(), r#"{"z":[null,false,5],"a":"s","n":1.5}"#);
}

#[test]
fn from_value_reads_the_same_document() {
    let mut inner = serde_json::Map::new();
    inner.insert("second".to_string(), Value::Bool(true));
    inner.insert("first".to_string(), Value::Null);
    let value = Value::Array(vec![
        Value::Object(inner),
        Value::String("t".to_string()),
        Value::Number(Number::from(3)),
        Value::Array(vec![]),
    ]);
    let doc = Json::from_value(value);
    assert_eq!(
        doc,
        Json::Array(vec![
            Json::Object(vec![entry("second", Json::Bool(true)), entry("first", Json::Null)]),
            Json::String("t".to_string()),
            Json::integer(3),
            Json::Array(vec![]),
        ])
    );
}

#[test]
fn get_finds_the_value_under_a_key() {
    let doc = Json::Object(vec![entry("a", Json::integer(1)), entry("b", Json::integer(2))]);
    assert_eq!(doc.get("a"), Some(&Json::integer(1)));
    assert_eq!(doc.get("b"), Some(&Json::integer(2)));
    assert_eq!(doc.get("c"), None);
    assert_eq!(Json::Array(vec![]).get("a"), None);
    assert_eq!(Json::Null.get("a"), None);
}

#[test]
fn find_key_gives_the_first_place_or_the_length() {
    let entries = vec![entry("a", Json::Null), entry("b", Json::Null), entry("a", Json::Bool(true))];
    assert_eq!(find_key(&entries, &"a".to_string()), 0);
    assert_eq!(find_key(&entries, &"b".to_string()), 1);
    assert_eq!(find_key(&entries, &"c".to_string()), 3);
    assert_eq!(find_key(&vec![], &"a".to_string()), 0);
}

#[test]
fn set_entry_replaces_in_place_or_appends() {
    let mut entries = vec![entry("a", Json::integer(1)), entry("b", Json::integer(2))];
    set_entry(&mut entries, "a", Json::Bool(true));
    assert_eq!(entries, vec![entry("a", Json::Bool(true)), entry("b", Json::integer(2))]);
    set_entry(&mut entries, "c", Json::Null);
    assert_eq!(
        entries,
        vec![entry("a", Json::Bool(true)), entry("b", Json::integer(2)), entry("c", Json::Null)]
    );
    set_entry(&mut entries, "c", Json::integer(3));
    assert_eq!(entries.len(), 3);
    assert_eq!(entries[2], entry("c", Json::integer(3)));
}

#[test]
fn well_formed_means_no_key_twice_in_one_object() {
    let twice = Json::Object(vec![entry("a", Json::Null), entry("a", Json::Null)]);
    assert!(!twice.is_well_formed());
    let nested = Json::Array(vec![Json::Object(vec![entry("k", twice)])]);
    assert!(!nested.is_well_formed());
    let apart = Json::Object(vec![
        entry("a", Json::Object(vec![entry("a", Json::Null)])),
        entry("b", Json::Object(vec![entry("a", Json::Null)])),
    ]);
    assert!(apart.is_well_formed());
    assert!(Json::Null.is_well_formed());
    assert!(has_distinct_keys(&vec![entry("a", Json::Null), entry("b", Json::Null)]));
    assert!(!has_distinct_keys(&vec![
        entry("a", Json::Null),
        entry("b", Json::Null),
        entry("a", Json::Null)
    ]));
}

#[test]
fn duplicate_copies_the_whole_document() {
    let doc = Json::parse(r#"{"a":[1,{"b":null}],"c":"d","e":2.5,"f":true}"#).unwrap();
    let copy = doc.duplicate();
    assert_eq!(copy, doc);
    assert_eq!(copy.to_text(), r#"{"a":[1,{"b":null}],"c":"d","e":2.5,"f":true}"#);
}
