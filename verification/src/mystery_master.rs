//! The top-fifty leaderboard record: a player and the direction they moved.

use vstd::prelude::*;

use crate::json::{get_field, spec_get, str_eq, DecodeError, JsonValue};
use crate::named_id::{spec_is_named_id, spec_named_id_error, NamedId};
use crate::uuids::{spec_is_uuid_text, spec_uuid_bytes, Uuid};

verus! {

/// A player on the leaderboard, with the direction they moved since the
/// previous snapshot.
#[derive(Debug, PartialEq, Eq)]
pub struct MysteryMaster {
    /// The player's username.
    pub name: String,
    /// The player's identifier.
    pub uuid: Uuid,
    /// Which way the player moved on the scoreboard.
    pub change: MysteryMasterChangeKind,
}

/// The direction of a leaderboard move.
#[derive(Debug, Clone, Copy, PartialEq, Eq, Structural)]
pub enum MysteryMasterChangeKind {
    Down,
    Unchanged,
    Up,
}

/// The wire name of a change direction.
pub open spec fn spec_change_kind_text(k: MysteryMasterChangeKind) -> Seq<char> {
    match k {
        MysteryMasterChangeKind::Down => "DOWN"@,
        MysteryMasterChangeKind::Unchanged => "UNCHANGED"@,
        MysteryMasterChangeKind::Up => "UP"@,
    }
}

/// Whether a piece of text names a change direction.
pub open spec fn spec_is_change_kind_text(t: Seq<char>) -> bool {
    t == "DOWN"@ || t == "UNCHANGED"@ || t == "UP"@
}

/// Decodes the wire name of a change direction.
pub fn decode_change_kind(s: &str) -> (r: Result<MysteryMasterChangeKind, DecodeError>)
    ensures
        r is Ok <==> spec_is_change_kind_text(s@),
        (r matches Ok(k) ==> spec_change_kind_text(k) == s@),
        (r matches Err(e) ==> e == DecodeError::UnknownVariant),
{
    if str_eq(s, "DOWN") {
        Ok(MysteryMasterChangeKind::Down)
    } else if str_eq(s, "UNCHANGED") {
        Ok(MysteryMasterChangeKind::Unchanged)
    } else if str_eq(s, "UP") {
        Ok(MysteryMasterChangeKind::Up)
    } else {
        Err(DecodeError::UnknownVariant)
    }
}

/// The error an invalid leaderboard record decodes to: the summary fields
/// are examined first, then the change direction.
pub open spec fn spec_mystery_master_error(v: JsonValue) -> DecodeError {
    if !spec_is_named_id(v) {
        spec_named_id_error(v)
    } else {
        match v {
            JsonValue::Object(fields) => match spec_get(fields@, "change"@) {
                Option::None => DecodeError::MissingField,
                Option::Some(cv) => match cv {
                    JsonValue::Str(_) => DecodeError::UnknownVariant,
                    _ => DecodeError::WrongFieldType,
                },
            },
            _ => DecodeError::NotAnObject,
        }
    }
}

/// Whether `v` is an object that decodes as a leaderboard record.
pub open spec fn spec_is_mystery_master(v: JsonValue) -> bool {
    &&& v matches JsonValue::Object(fields)
    &&& spec_get(fields@, "name"@) matches Some(nv) && nv is Str
    &&& spec_get(fields@, "uuid"@) matches Some(uv) && uv matches JsonValue::Str(us)
        && spec_is_uuid_text(us@)
    &&& spec_get(fields@, "change"@) matches Some(cv) && cv matches JsonValue::Str(cs)
        && spec_is_change_kind_text(cs@)
}

impl MysteryMaster {
    /// Decodes a wire object with `name`, `uuid` and `change` fields.
    pub fn decode(v: &JsonValue) -> (r: Result<MysteryMaster, DecodeError>)
        ensures
            r is Ok <==> spec_is_mystery_master(*v),
            (r matches Ok(m) ==> *v matches JsonValue::Object(fields) && (spec_get(
                fields@,
                "name"@,
            ) matches Some(nv) && nv matches JsonValue::Str(ns) && ns@ == m.name@) && (spec_get(
                fields@,
                "uuid"@,
            ) matches Some(uv) && uv matches JsonValue::Str(us) && spec_uuid_bytes(us@)
                == m.uuid.bytes@) && (spec_get(fields@, "change"@) matches Some(cv)
                && cv matches JsonValue::Str(cs) && cs@ == spec_change_kind_text(m.change))),
            (r matches Err(e) ==> e == spec_mystery_master_error(*v)),
    {
        let named = NamedId::decode(v);
        match v {
            JsonValue::Object(fields) => {
                let (name, uuid) = match named {
                    Ok(n) => (n.name, n.uuid),
                    Err(e) => {
                        return Err(e);
                    },
                };
                let change = match get_field(fields, "change") {
                    Option::Some(cv) => match cv {
                        JsonValue::Str(s) => match decode_change_kind(s.as_str()) {
                            Ok(k) => k,
                            Err(e) => {
                                return Err(e);
                            },
                        },
                        _ => {
                            return Err(DecodeError::WrongFieldType);
                        },
                    },
                    Option::None => {
                        return Err(DecodeError::MissingField);
                    },
                };
                Ok(MysteryMaster { name, uuid, change })
            },
            _ => Err(DecodeError::NotAnObject),
        }
    }
}

} // verus!
