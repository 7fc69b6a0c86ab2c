use earthmc::discord_link::DiscordLink;
use earthmc::json::{decode_i32_array, DecodeError, JsonValue};
use earthmc::mystery_master::{MysteryMaster, MysteryMasterChangeKind};
use earthmc::named_id::{decode_named_id_array, decode_named_id_groups, NamedId};

fn jv(v: &serde_json::Value) -> JsonValue {
    match v {
        serde_json::Value::Null => JsonValue::Null,
        serde_json::Value::Bool(b) => JsonValue::Bool(*b),
        serde_json::Value::Number(n) => match n.as_i64() {
            Some(i) => JsonValue::Int(i),
            None => JsonValue::OtherNumber,
        },
        serde_json::Value::String(s) => JsonValue::Str(s.clone()),
        serde_json::Value::Array(items) => JsonValue::Array(items.iter().map(jv).collect()),
        serde_json::Value::Object(map) => {
            JsonValue::Object(map.iter().map(|(k, v)| (k.clone(), jv(v))).collect())
        }
    }
}

fn parse(text: &str) -> JsonValue {
    jv(&serde_json::from_str::<serde_json::Value>(text).unwrap())
}

#[test]
fn named_id_decodes_and_encodes() {
    let wire = parse(r#"{"name": "London", "uuid": "f17d77ab-aed4-44e7-96ef-ec9cd473eda3"}"#);
    let n = NamedId::decode(&wire).unwrap();
    assert_eq!(n.name, "London");
    assert_eq!(n.uuid.to_hyphenated(), "f17d77ab-aed4-44e7-96ef-ec9cd473eda3");
    let back = NamedId::decode(&n.encode()).unwrap();
    assert_eq!(back, n);
}

#[test]
fn named_id_rejects_bad_objects() {
    let wire = parse(r#"{"name": "London"}"#);
    assert_eq!(NamedId::decode(&wire), Err(DecodeError::MissingField));
    let wire = parse(r#"{"name": "London", "uuid": "oops"}"#);
    assert_eq!(NamedId::decode(&wire), Err(DecodeError::BadUuid));
    let wire = parse(r#"{"name": 7, "uuid": "f17d77ab-aed4-44e7-96ef-ec9cd473eda3"}"#);
    assert_eq!(NamedId::decode(&wire), Err(DecodeError::WrongFieldType));
}

#[test]
fn batch_of_three_with_one_unknown_yields_exactly_two() {
    // A query asked for three identifiers; the server knows two of them and
    // answers with a two-element array, which decodes to exactly two
    // records, not three and not an error.
    let response = parse(
        r#"[
        {"name": "London", "uuid": "f17d77ab-aed4-44e7-96ef-ec9cd473eda3"},
        {"name": "Berlin", "uuid": "971c5315-12c2-4c15-a8c3-d65121fa4e07"}
    ]"#,
    );
    let records = decode_named_id_array(&response).unwrap();
    assert_eq!(records.len(), 2);
    assert_eq!(records[0].name, "London");
    assert_eq!(records[1].name, "Berlin");
}

#[test]
fn nearby_response_stays_index_aligned() {
    // Two search items produce exactly two lists, index-aligned with the
    // request, even though the second is empty.
    let response = parse(
        r#"[
        [{"name": "Hamburg", "uuid": "971c5315-12c2-4c15-a8c3-d65121fa4e07"},
         {"name": "Bremen", "uuid": "f17d77ab-aed4-44e7-96ef-ec9cd473eda3"}],
        []
    ]"#,
    );
    let groups = decode_named_id_groups(&response).unwrap();
    assert_eq!(groups.len(), 2);
    assert_eq!(groups[0].len(), 2);
    assert_eq!(groups[0][0].name, "Hamburg");
    assert_eq!(groups[0][1].name, "Bremen");
    assert_eq!(groups[1].len(), 0);
}

#[test]
fn mystery_master_decodes() {
    let wire = parse(
        r#"{"name": "Notch", "uuid": "069a79f4-44e9-4726-a5be-fca90e38aaf5", "change": "UP"}"#,
    );
    let m = MysteryMaster::decode(&wire).unwrap();
    assert_eq!(m.name, "Notch");
    assert_eq!(m.change, MysteryMasterChangeKind::Up);
    let wire = parse(
        r#"{"name": "Notch", "uuid": "069a79f4-44e9-4726-a5be-fca90e38aaf5", "change": "SIDEWAYS"}"#,
    );
    assert_eq!(MysteryMaster::decode(&wire), Err(DecodeError::UnknownVariant));
}

#[test]
fn discord_link_decodes() {
    let wire = parse(
        r#"{"id": "160374716928884736", "uuid": "069a79f4-44e9-4726-a5be-fca90e38aaf5"}"#,
    );
    let l = DiscordLink::decode(&wire).unwrap();
    assert_eq!(l.id, "160374716928884736");
    assert_eq!(l.uuid.to_hyphenated(), "069a79f4-44e9-4726-a5be-fca90e38aaf5");
}

#[test]
fn int_array_decoder_handles_wire_json() {
    let wire = parse("[1, -2, 300]");
    let vals = decode_i32_array(&wire, 3).unwrap();
    assert_eq!(vals, [1, -2, 300]);
    let wire = parse("[1, 2.5, 3]");
    assert_eq!(decode_i32_array(&wire, 3), Err(DecodeError::NotAnInt(1)));
}

#[test]
fn named_id_array_reports_first_invalid_element() {
    let wire = parse(
        r#"[
        {"name": "London", "uuid": "f17d77ab-aed4-44e7-96ef-ec9cd473eda3"},
        {"name": "Berlin", "uuid": "not-a-uuid"},
        {"name": "Hamburg", "uuid": "971c5315-12c2-4c15-a8c3-d65121fa4e07"}
    ]"#,
    );
    assert_eq!(decode_named_id_array(&wire), Err(DecodeError::BadUuid));
    assert_eq!(
        decode_named_id_array(&JsonValue::Int(3)),
        Err(DecodeError::NotAnArray)
    );
}

#[test]
fn named_id_groups_reject_a_bad_group() {
    let wire = parse(
        r#"[
        [{"name": "London", "uuid": "f17d77ab-aed4-44e7-96ef-ec9cd473eda3"}],
        [{"name": "Berlin"}]
    ]"#,
    );
    assert_eq!(decode_named_id_groups(&wire), Err(DecodeError::MissingField));
}
