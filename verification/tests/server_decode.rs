use earthmc::json::{DecodeError, JsonValue};
use earthmc::permission::{
    TownyPermissionFlags, TownyPermissionSet, TownyPermissions,
};
use earthmc::server::{MoonPhase, Server};

fn jv(v: &serde_json::Value) -> JsonValue {
    match v {
        serde_json::Value::Null => JsonValue::Null,
        serde_json::Value::Bool(b) => JsonValue::Bool(*b),
        serde_json::Value::Number(n) => match n.as_i64() {
            Some(i) => JsonValue::Int(i),
            None => JsonValue::OtherNumber,
        },
        serde_json::Value::String(s) => JsonValue::Str(s.clone()),
        serde_json::Value::Array(items) => JsonValue::Array(items.iter().map(jv).collect()),
        serde_json::Value::Object(map) => {
            JsonValue::Object(map.iter().map(|(k, v)| (k.clone(), jv(v))).collect())
        }
    }
}

fn parse(text: &str) -> JsonValue {
    jv(&serde_json::from_str::<serde_json::Value>(text).unwrap())
}

const SERVER_JSON: &str = r#"{
    "version": "1.20.4",
    "moonPhase": "WAXING_GIBBOUS",
    "timestamps": {"newDayTime": 1700000000, "serverTimeOfDay": 43000},
    "status": {"hasStorm": false, "isThundering": false},
    "stats": {
        "time": 13000, "fullTime": 99999999,
        "maxPlayers": 500, "numOnlinePlayers": 142, "numOnlineNomads": 12,
        "numResidents": 30000, "numNomads": 4000, "numTowns": 2800,
        "numTownBlocks": 500000, "numNations": 400, "numQuarters": 1200,
        "numCuboids": 2400
    },
    "voteParty": {"target": 100, "numRemaining": 37}
}"#;

#[test]
fn server_snapshot_decodes_every_field() {
    let server = Server::decode(&parse(SERVER_JSON)).unwrap();
    assert_eq!(server.version, "1.20.4");
    assert_eq!(server.moon_phase, MoonPhase::WaxingGibbous);
    assert_eq!(server.timestamps.new_day_time, 1700000000);
    assert_eq!(server.timestamps.server_time_of_day, 43000);
    assert!(!server.status.has_storm);
    assert!(!server.status.is_thundering);
    assert_eq!(server.stats.time, 13000);
    assert_eq!(server.stats.full_time, 99999999);
    assert_eq!(server.stats.max_players, 500);
    assert_eq!(server.stats.num_online_players, 142);
    assert_eq!(server.stats.num_residents, 30000);
    assert_eq!(server.stats.num_cuboids, 2400);
    assert_eq!(server.vote_party.target, 100);
    assert_eq!(server.vote_party.num_remaining, 37);
}

#[test]
fn server_rejects_unknown_moon_phase() {
    let text = SERVER_JSON.replace("WAXING_GIBBOUS", "BLOOD_MOON");
    assert_eq!(Server::decode(&parse(&text)), Err(DecodeError::UnknownVariant));
}

#[test]
fn server_rejects_missing_section() {
    let text = SERVER_JSON.replace("voteParty", "votePartyRenamed");
    assert_eq!(Server::decode(&parse(&text)), Err(DecodeError::MissingField));
}

#[test]
fn towny_permissions_round_trip() {
    let set = |a: bool, b: bool, c: bool, d: bool| TownyPermissionSet {
        resident: a,
        nation: b,
        ally: c,
        outsider: d,
    };
    let perms = TownyPermissions {
        build: set(true, true, false, false),
        destroy: set(true, false, false, false),
        switch: set(true, true, true, true),
        item_use: set(false, false, false, false),
        flags: TownyPermissionFlags { pvp: false, explosion: true, fire: false, mobs: true },
    };
    let decoded = TownyPermissions::decode(&perms.encode()).unwrap();
    assert_eq!(decoded, perms);
}

#[test]
fn towny_permissions_decode_wire_object() {
    let wire = parse(
        r#"{
        "build": [true, false, false, false],
        "destroy": [false, false, false, false],
        "switch": [true, true, false, false],
        "itemUse": [true, true, true, false],
        "flags": {"pvp": true, "explosion": false, "fire": false, "mobs": true}
    }"#,
    );
    let perms = TownyPermissions::decode(&wire).unwrap();
    assert!(perms.build.resident);
    assert!(!perms.build.nation);
    assert!(!perms.destroy.resident);
    assert!(perms.switch.nation);
    assert!(perms.item_use.ally);
    assert!(!perms.item_use.outsider);
    assert!(perms.flags.pvp);
    assert!(perms.flags.mobs);

    let short = parse(
        r#"{
        "build": [true, false, false],
        "destroy": [false, false, false, false],
        "switch": [true, true, false, false],
        "itemUse": [true, true, true, false],
        "flags": {"pvp": true, "explosion": false, "fire": false, "mobs": true}
    }"#,
    );
    assert_eq!(
        TownyPermissions::decode(&short),
        Err(DecodeError::InvalidLength(3))
    );
}
