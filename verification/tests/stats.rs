use earthmc::json::{DecodeError, JsonValue};
use earthmc::player_stats::{entry_of_stat, stat_of_entry, Stat, StatMap};

#[test]
fn known_key_round_trips_exactly() {
    let s = stat_of_entry("jump".to_string(), 12345);
    assert!(matches!(s, Stat::Jump(12345)));
    let (key, value) = entry_of_stat(&s);
    assert_eq!(key, "jump");
    assert_eq!(value, 12345);

    let s = stat_of_entry("walk_on_water_one_cm".to_string(), 7);
    assert!(matches!(s, Stat::WalkOnWaterOneCm(7)));
    let (key, value) = entry_of_stat(&s);
    assert_eq!(key, "walk_on_water_one_cm");
    assert_eq!(value, 7);
}

#[test]
fn unknown_key_round_trips_through_catch_all() {
    let s = stat_of_entry("definitely_not_a_stat".to_string(), -3);
    assert!(matches!(&s, Stat::Other(k, -3) if k == "definitely_not_a_stat"));
    let (key, value) = entry_of_stat(&s);
    assert_eq!(key, "definitely_not_a_stat");
    assert_eq!(value, -3);
}

#[test]
fn stat_map_decodes_and_encodes_losslessly() {
    let wire = JsonValue::Object(vec![
        ("deaths".to_string(), JsonValue::Int(42)),
        ("mystery_key".to_string(), JsonValue::Int(1)),
        ("play_time".to_string(), JsonValue::Int(99999)),
    ]);
    let map = StatMap::decode(&wire).unwrap();
    assert_eq!(map.0.len(), 3);
    assert!(matches!(map.0[0], Stat::Deaths(42)));
    assert!(matches!(&map.0[1], Stat::Other(k, 1) if k == "mystery_key"));
    assert!(matches!(map.0[2], Stat::PlayTime(99999)));

    match map.encode() {
        JsonValue::Object(fields) => {
            assert_eq!(fields.len(), 3);
            assert_eq!(fields[0].0, "deaths");
            assert!(matches!(fields[0].1, JsonValue::Int(42)));
            assert_eq!(fields[1].0, "mystery_key");
            assert!(matches!(fields[1].1, JsonValue::Int(1)));
            assert_eq!(fields[2].0, "play_time");
            assert!(matches!(fields[2].1, JsonValue::Int(99999)));
        }
        _ => panic!("expected an object"),
    }
}

#[test]
fn stat_map_rejects_non_integer_counts() {
    let wire = JsonValue::Object(vec![
        ("deaths".to_string(), JsonValue::Int(1)),
        ("jump".to_string(), JsonValue::Str("many".to_string())),
    ]);
    assert!(matches!(StatMap::decode(&wire), Err(DecodeError::NotAnInt(1))));
    assert!(matches!(
        StatMap::decode(&JsonValue::Int(5)),
        Err(DecodeError::NotAnObject)
    ));
}
