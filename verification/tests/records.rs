use earthmc::json::{DecodeError, JsonValue};
use earthmc::nation::{decode_nation_rank, NationRankKind, NationStatus, NationTimestamps};
use earthmc::player::{PlayerRanks, PlayerStatus, PlayerTimestamps};
use earthmc::quarter::{
    decode_quarter_kind, QuarterCuboid, QuarterKind, QuarterStatus, QuarterTimestamps,
};
use earthmc::town::{decode_town_rank, TownRankKind, TownStatus, TownTimestamps};

fn jv(v: &serde_json::Value) -> JsonValue {
    match v {
        serde_json::Value::Null => JsonValue::Null,
        serde_json::Value::Bool(b) => JsonValue::Bool(*b),
        serde_json::Value::Number(n) => match n.as_i64() {
            Some(i) => JsonValue::Int(i),
            None => JsonValue::OtherNumber,
        },
        serde_json::Value::String(s) => JsonValue::Str(s.clone()),
        serde_json::Value::Array(items) => JsonValue::Array(items.iter().map(jv).collect()),
        serde_json::Value::Object(map) => {
            JsonValue::Object(map.iter().map(|(k, v)| (k.clone(), jv(v))).collect())
        }
    }
}

fn parse(text: &str) -> JsonValue {
    jv(&serde_json::from_str::<serde_json::Value>(text).unwrap())
}

#[test]
fn town_timestamps_decode_with_and_without_ruin() {
    let t = TownTimestamps::decode(&parse(
        r#"{"registered": 100, "joinedNationAt": 200, "ruinedAt": null}"#,
    ))
    .unwrap();
    assert_eq!(t, TownTimestamps { registered: 100, joined_nation_at: 200, ruined_at: None });
    let t = TownTimestamps::decode(&parse(
        r#"{"registered": 100, "joinedNationAt": 200, "ruinedAt": 300}"#,
    ))
    .unwrap();
    assert_eq!(t.ruined_at, Some(300));
    assert_eq!(
        TownTimestamps::decode(&parse(r#"{"registered": 100, "joinedNationAt": 200}"#)),
        Err(DecodeError::MissingField)
    );
}

#[test]
fn town_status_decodes_all_ten_flags() {
    let s = TownStatus::decode(&parse(
        r#"{"isPublic": true, "isOpen": false, "isNeutral": true, "isCapital": false,
            "isOverClaimed": false, "isRuined": false, "isForSale": true, "hasNation": true,
            "hasOverclaimShield": false, "canOutsidersSpawn": true}"#,
    ))
    .unwrap();
    assert!(s.is_public);
    assert!(!s.is_open);
    assert!(s.is_neutral);
    assert!(!s.is_capital);
    assert!(s.is_for_sale);
    assert!(s.has_nation);
    assert!(!s.has_overclaim_shield);
    assert!(s.can_outsiders_spawn);
}

#[test]
fn town_rank_names_round_trip_including_the_renamed_one() {
    assert_eq!(decode_town_rank("Councillor"), Ok(TownRankKind::Councillor));
    assert_eq!(decode_town_rank("Tax-exempt"), Ok(TownRankKind::TaxExempt));
    assert_eq!(decode_town_rank("Settler"), Ok(TownRankKind::Settler));
    assert_eq!(decode_town_rank("TaxExempt"), Err(DecodeError::UnknownVariant));
}

#[test]
fn nation_records_decode() {
    assert_eq!(decode_nation_rank("Diplomat"), Ok(NationRankKind::Diplomat));
    assert_eq!(decode_nation_rank("Mayor"), Err(DecodeError::UnknownVariant));
    let t = NationTimestamps::decode(&parse(r#"{"registered": 77}"#)).unwrap();
    assert_eq!(t.registered, 77);
    let s = NationStatus::decode(&parse(
        r#"{"isPublic": true, "isOpen": true, "isNeutral": false}"#,
    ))
    .unwrap();
    assert_eq!(s, NationStatus { is_public: true, is_open: true, is_neutral: false });
}

#[test]
fn player_records_decode() {
    let t = PlayerTimestamps::decode(&parse(
        r#"{"registered": 5, "joinedTownAt": null, "lastOnline": 9}"#,
    ))
    .unwrap();
    assert_eq!(t, PlayerTimestamps { registered: 5, joined_town_at: None, last_online: Some(9) });
    let s = PlayerStatus::decode(&parse(
        r#"{"isOnline": true, "isNPC": false, "isMayor": true, "isKing": false,
            "hasTown": true, "hasNation": true}"#,
    ))
    .unwrap();
    assert!(s.is_online && !s.is_npc && s.is_mayor && !s.is_king);
    let r = PlayerRanks::decode(&parse(
        r#"{"townRanks": ["Councillor", "Tax-exempt"], "nationRanks": ["Chancellor"]}"#,
    ))
    .unwrap();
    assert_eq!(r.town_ranks, vec![TownRankKind::Councillor, TownRankKind::TaxExempt]);
    assert_eq!(r.nation_ranks, vec![NationRankKind::Chancellor]);
    assert_eq!(
        PlayerRanks::decode(&parse(r#"{"townRanks": ["Emperor"], "nationRanks": []}"#)),
        Err(DecodeError::UnknownVariant)
    );
}

#[test]
fn quarter_records_decode() {
    assert_eq!(decode_quarter_kind("INN"), Ok(QuarterKind::Inn));
    assert_eq!(decode_quarter_kind("inn"), Err(DecodeError::UnknownVariant));
    let t = QuarterTimestamps::decode(&parse(r#"{"registered": 4, "claimedAt": null}"#)).unwrap();
    assert_eq!(t, QuarterTimestamps { registered: 4, claimed_at: None });
    let s = QuarterStatus::decode(&parse(r#"{"isEmbassy": false, "isForSale": true}"#)).unwrap();
    assert_eq!(s, QuarterStatus { is_embassy: false, is_for_sale: true });
}

#[test]
fn quarter_cuboid_round_trip() {
    let c = QuarterCuboid::decode(&parse(
        r#"{"cornerOne": [0, 60, 0], "cornerTwo": [15, 80, 15]}"#,
    ))
    .unwrap();
    assert_eq!(c.corner_one.y, 60);
    assert_eq!(c.corner_two.x, 15);
    let back = QuarterCuboid::decode(&c.encode()).unwrap();
    assert_eq!(back, c);
    assert_eq!(
        QuarterCuboid::decode(&parse(r#"{"cornerOne": [0, 60], "cornerTwo": [15, 80, 15]}"#)),
        Err(DecodeError::InvalidLength(2))
    );
}
