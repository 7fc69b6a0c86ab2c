use earthmc::block_position::BlockPosition;
use earthmc::chunk_position::ChunkPosition;
use earthmc::json::{DecodeError, JsonValue};
use earthmc::permission::{TownyPermissionFlags, TownyPermissionSet};
use earthmc::quarter::QuarterColour;

fn int_array(vals: &[i64]) -> JsonValue {
    JsonValue::Array(vals.iter().map(|v| JsonValue::Int(*v)).collect())
}

fn bool_array(vals: &[bool]) -> JsonValue {
    JsonValue::Array(vals.iter().map(|v| JsonValue::Bool(*v)).collect())
}

#[test]
fn block_position_round_trip() {
    let p = BlockPosition { x: -7, y: 64, z: 1200 };
    let encoded = p.encode();
    match &encoded {
        JsonValue::Array(items) => assert_eq!(items.len(), 3),
        _ => panic!("expected an array"),
    }
    let decoded = BlockPosition::decode(&encoded).unwrap();
    assert_eq!(decoded, p);
}

#[test]
fn block_position_short_array_names_first_missing_index() {
    let v = int_array(&[1, 2]);
    assert_eq!(BlockPosition::decode(&v), Err(DecodeError::InvalidLength(2)));
    let v = int_array(&[]);
    assert_eq!(BlockPosition::decode(&v), Err(DecodeError::InvalidLength(0)));
}

#[test]
fn block_position_long_array_fails() {
    let v = int_array(&[1, 2, 3, 4]);
    assert_eq!(BlockPosition::decode(&v), Err(DecodeError::InvalidLength(4)));
}

#[test]
fn block_position_rejects_wrong_elements() {
    let v = JsonValue::Array(vec![
        JsonValue::Int(1),
        JsonValue::Bool(true),
        JsonValue::Int(3),
    ]);
    assert_eq!(BlockPosition::decode(&v), Err(DecodeError::NotAnInt(1)));
    let v = int_array(&[1, 1 << 40, 3]);
    assert_eq!(BlockPosition::decode(&v), Err(DecodeError::OutOfRange(1)));
    let v = JsonValue::Bool(false);
    assert_eq!(BlockPosition::decode(&v), Err(DecodeError::NotAnArray));
}

#[test]
fn chunk_position_round_trip_and_lengths() {
    let p = ChunkPosition { x: 16, y: -32 };
    let decoded = ChunkPosition::decode(&p.encode()).unwrap();
    assert_eq!(decoded, p);
    assert_eq!(
        ChunkPosition::decode(&int_array(&[5])),
        Err(DecodeError::InvalidLength(1))
    );
    assert_eq!(
        ChunkPosition::decode(&int_array(&[5, 6, 7])),
        Err(DecodeError::InvalidLength(3))
    );
}

#[test]
fn permission_set_round_trip_and_lengths() {
    let p = TownyPermissionSet { resident: true, nation: false, ally: true, outsider: false };
    let encoded = p.encode();
    let decoded = TownyPermissionSet::decode(&encoded).unwrap();
    assert_eq!(decoded, p);
    assert_eq!(
        TownyPermissionSet::decode(&bool_array(&[true, false, true])),
        Err(DecodeError::InvalidLength(3))
    );
    assert_eq!(
        TownyPermissionSet::decode(&bool_array(&[true, false, true, false, true])),
        Err(DecodeError::InvalidLength(5))
    );
    let mixed = JsonValue::Array(vec![
        JsonValue::Bool(true),
        JsonValue::Int(1),
        JsonValue::Bool(false),
        JsonValue::Bool(false),
    ]);
    assert_eq!(TownyPermissionSet::decode(&mixed), Err(DecodeError::NotABool(1)));
}

#[test]
fn quarter_colour_round_trip_and_lengths() {
    let c = QuarterColour { red: 255, green: 128, blue: 0, alpha: 64 };
    let decoded = QuarterColour::decode(&c.encode()).unwrap();
    assert_eq!(decoded, c);
    assert_eq!(
        QuarterColour::decode(&int_array(&[1, 2])),
        Err(DecodeError::InvalidLength(2))
    );
    assert_eq!(
        QuarterColour::decode(&int_array(&[1, 2, 3, 4, 5])),
        Err(DecodeError::InvalidLength(5))
    );
    assert_eq!(
        QuarterColour::decode(&int_array(&[1, 256, 3, 4])),
        Err(DecodeError::OutOfRange(1))
    );
}

#[test]
fn quarter_colour_accepts_three_bytes_with_opaque_alpha() {
    let decoded = QuarterColour::decode(&int_array(&[10, 20, 30])).unwrap();
    assert_eq!(decoded, QuarterColour { red: 10, green: 20, blue: 30, alpha: 255 });
    assert_eq!(
        QuarterColour::decode(&int_array(&[10, 256, 30])),
        Err(DecodeError::OutOfRange(1))
    );
}

#[test]
fn permission_flags_round_trip() {
    let f = TownyPermissionFlags { pvp: true, explosion: false, fire: true, mobs: false };
    let encoded = f.encode();
    let decoded = TownyPermissionFlags::decode(&encoded).unwrap();
    assert_eq!(decoded, f);
}

#[test]
fn permission_flags_missing_field() {
    let v = JsonValue::Object(vec![
        ("pvp".to_string(), JsonValue::Bool(true)),
        ("explosion".to_string(), JsonValue::Bool(false)),
        ("fire".to_string(), JsonValue::Bool(false)),
    ]);
    assert_eq!(TownyPermissionFlags::decode(&v), Err(DecodeError::MissingField));
    let v = JsonValue::Object(vec![
        ("pvp".to_string(), JsonValue::Bool(true)),
        ("explosion".to_string(), JsonValue::Int(0)),
        ("fire".to_string(), JsonValue::Bool(false)),
        ("mobs".to_string(), JsonValue::Bool(false)),
    ]);
    assert_eq!(TownyPermissionFlags::decode(&v), Err(DecodeError::WrongFieldType));
}
