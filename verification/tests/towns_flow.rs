//! The town-query flow end to end, against a canned upstream answer: the
//! query for three towns of which one does not exist, the request path, and
//! the two-record response with mayors and stats.

use earthmc::client::{request_path, AttemptOutcome, NextAction, RequestDriver, TOWNS_PATH};
use earthmc::json::JsonValue;
use earthmc::named_id::NamedId;
use earthmc::query::{SimpleQueryBuilder, StrOrUuid};
use earthmc::retry_strategy::JitteredBackoff;
use earthmc::world::World;

fn jv(v: &serde_json::Value) -> JsonValue {
    match v {
        serde_json::Value::Null => JsonValue::Null,
        serde_json::Value::Bool(b) => JsonValue::Bool(*b),
        serde_json::Value::Number(n) => match n.as_i64() {
            Some(i) => JsonValue::Int(i),
            None => JsonValue::OtherNumber,
        },
        serde_json::Value::String(s) => JsonValue::Str(s.clone()),
        serde_json::Value::Array(items) => JsonValue::Array(items.iter().map(jv).collect()),
        serde_json::Value::Object(map) => {
            JsonValue::Object(map.iter().map(|(k, v)| (k.clone(), jv(v))).collect())
        }
    }
}

const CANNED_RESPONSE: &str = r#"[
    {"name": "London", "uuid": "f17d77ab-aed4-44e7-96ef-ec9cd473eda3",
     "mayor": {"name": "Alice", "uuid": "069a79f4-44e9-4726-a5be-fca90e38aaf5"},
     "stats": {"balance": 1234.5, "numResidents": 41, "numTownBlocks": 256}},
    {"name": "Berlin", "uuid": "971c5315-12c2-4c15-a8c3-d65121fa4e07",
     "mayor": {"name": "Bob", "uuid": "11111111-2222-3333-4444-555555555555"},
     "stats": {"balance": 9.25, "numResidents": 7, "numTownBlocks": 64}}
]"#;

#[test]
fn three_towns_queried_two_returned() {
    // Build the query for three towns, one of which does not exist upstream.
    let query = SimpleQueryBuilder::default()
        .add(StrOrUuid::from_name("London"))
        .add(StrOrUuid::from_name("Berlin"))
        .add(StrOrUuid::from_name("NONEXISTENT"))
        .build()
        .unwrap();
    let body = query.encode_body();
    match &body {
        JsonValue::Object(fields) => match &fields[0].1 {
            JsonValue::Array(items) => assert_eq!(items.len(), 3),
            _ => panic!("payload must be an array"),
        },
        _ => panic!("body must be an object"),
    }

    // The request goes to {world}/towns.
    let path = request_path(&World::Aurora, TOWNS_PATH);
    assert_eq!(path, "aurora/towns");

    // The transport reports a successful body; the driver hands it to the
    // parser without consuming a retry.
    let mut driver = RequestDriver::new(JitteredBackoff::default());
    let text = match driver.step(AttemptOutcome::Success(CANNED_RESPONSE.to_string())) {
        NextAction::Parse(text) => text,
        _ => panic!("a successful body must be parsed"),
    };
    assert_eq!(driver.attempts, 0);

    // The response holds exactly two records, each with a mayor name and
    // the expected stats.
    let parsed: serde_json::Value = serde_json::from_str(&text).unwrap();
    let towns = parsed.as_array().unwrap();
    assert_eq!(towns.len(), 2);

    let mayors: Vec<NamedId> = towns
        .iter()
        .map(|t| NamedId::decode(&jv(&t["mayor"])).unwrap())
        .collect();
    assert_eq!(mayors[0].name, "Alice");
    assert_eq!(mayors[1].name, "Bob");

    for town in towns {
        assert!(town["stats"]["balance"].as_f64().is_some());
        assert!(town["stats"]["numResidents"].as_i64().is_some());
        assert!(town["stats"]["numTownBlocks"].as_i64().is_some());
    }
    assert_eq!(towns[0]["stats"]["balance"].as_f64().unwrap(), 1234.5);
    assert_eq!(towns[0]["stats"]["numResidents"].as_i64().unwrap(), 41);
    assert_eq!(towns[0]["stats"]["numTownBlocks"].as_i64().unwrap(), 256);
}

#[test]
fn post_parse_failure_carries_a_snippet() {
    let body = "[{\"name\": oops}]";
    let err = earthmc::client::post_parse_failure(body, "expected value".to_string(), 1, 11);
    match err {
        earthmc::errors::Error::DeserializationWithSnippet { message, snippet } => {
            assert_eq!(message, "expected value");
            assert!(snippet.contains("oops"));
        }
        _ => panic!("expected the snippet-carrying error"),
    }
}
