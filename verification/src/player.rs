//! The player record family: the parts of a player snapshot that carry
//! plain counts, flags, timestamps and ranks, with their wire decoders.

use vstd::prelude::*;

use crate::json::{
    bool_field, i64_field, opt_i64_field, spec_bool_field, spec_get, spec_i64_field,
    spec_opt_i64_field, DecodeError, JsonValue,
};
use crate::nation::{decode_nation_rank, spec_is_nation_rank_text, spec_nation_rank_of,
    NationRankKind};
use crate::town::{decode_town_rank, spec_is_town_rank_text, spec_town_rank_of, TownRankKind};

verus! {

/// Timestamps a player reports.
#[derive(Debug, Clone, Copy, PartialEq, Eq, Structural)]
pub struct PlayerTimestamps {
    /// Unix timestamp of when the player joined the server.
    pub registered: i64,
    /// Unix timestamp of when the player joined their town, if any.
    pub joined_town_at: Option<i64>,
    /// Unix timestamp of when the player was last online; absent for an NPC.
    pub last_online: Option<i64>,
}

/// The flags a player reports.
#[derive(Debug, Clone, Copy, PartialEq, Eq, Structural)]
pub struct PlayerStatus {
    /// Whether the player is currently online.
    pub is_online: bool,
    /// Whether the player is a Towny NPC.
    pub is_npc: bool,
    /// Whether the player is the mayor of a town.
    pub is_mayor: bool,
    /// Whether the player is the leader of a nation.
    pub is_king: bool,
    /// Whether the player is currently in a town.
    pub has_town: bool,
    /// Whether the player is currently in a nation.
    pub has_nation: bool,
}

/// The ranks a player holds in their town and their nation.
#[derive(Debug, PartialEq, Eq)]
pub struct PlayerRanks {
    /// The town ranks the player holds.
    pub town_ranks: Vec<TownRankKind>,
    /// The nation ranks the player holds.
    pub nation_ranks: Vec<NationRankKind>,
}

/// What decoding the player's timestamp object yields; absent times arrive
/// as JSON null.
pub open spec fn spec_decode_player_timestamps(v: JsonValue) -> Result<
    PlayerTimestamps,
    DecodeError,
> {
    match v {
        JsonValue::Object(fields) => match spec_i64_field(fields@, "registered"@) {
            Err(e) => Err(e),
            Ok(registered) => match spec_opt_i64_field(fields@, "joinedTownAt"@) {
                Err(e) => Err(e),
                Ok(joined_town_at) => match spec_opt_i64_field(fields@, "lastOnline"@) {
                    Err(e) => Err(e),
                    Ok(last_online) => Ok(
                        (PlayerTimestamps { registered, joined_town_at, last_online }),
                    ),
                },
            },
        },
        _ => Err(DecodeError::NotAnObject),
    }
}

impl PlayerTimestamps {
    /// Decodes the player's timestamp object.
    pub fn decode(v: &JsonValue) -> (r: Result<PlayerTimestamps, DecodeError>)
        ensures
            (match spec_decode_player_timestamps(*v) {
                Ok(t) => r matches Ok(a) && a == t,
                Err(e) => r matches Err(a) && a == e,
            }),
    {
        match v {
            JsonValue::Object(fields) => {
                let registered = match i64_field(fields, "registered") {
                    Ok(n) => n,
                    Err(e) => {
                        return Err(e);
                    },
                };
                let joined_town_at = match opt_i64_field(fields, "joinedTownAt") {
                    Ok(n) => n,
                    Err(e) => {
                        return Err(e);
                    },
                };
                let last_online = match opt_i64_field(fields, "lastOnline") {
                    Ok(n) => n,
                    Err(e) => {
                        return Err(e);
                    },
                };
                Ok(PlayerTimestamps { registered, joined_town_at, last_online })
            },
            _ => Err(DecodeError::NotAnObject),
        }
    }
}

/// What decoding the player's flag object yields; the fields are examined
/// in declaration order.
pub open spec fn spec_decode_player_status(v: JsonValue) -> Result<PlayerStatus, DecodeError> {
    match v {
        JsonValue::Object(fields) => match spec_bool_field(fields@, "isOnline"@) {
            Err(e) => Err(e),
            Ok(is_online) => match spec_bool_field(fields@, "isNPC"@) {
                Err(e) => Err(e),
                Ok(is_npc) => match spec_bool_field(fields@, "isMayor"@) {
                    Err(e) => Err(e),
                    Ok(is_mayor) => match spec_bool_field(fields@, "isKing"@) {
                        Err(e) => Err(e),
                        Ok(is_king) => match spec_bool_field(fields@, "hasTown"@) {
                            Err(e) => Err(e),
                            Ok(has_town) => match spec_bool_field(fields@, "hasNation"@) {
                                Err(e) => Err(e),
                                Ok(has_nation) => Ok(
                                    (PlayerStatus {
                                        is_online,
                                        is_npc,
                                        is_mayor,
                                        is_king,
                                        has_town,
                                        has_nation,
                                    }),
                                ),
                            },
                        },
                    },
                },
            },
        },
        _ => Err(DecodeError::NotAnObject),
    }
}

impl PlayerStatus {
    /// Decodes the player's flag object.
    pub fn decode(v: &JsonValue) -> (r: Result<PlayerStatus, DecodeError>)
        ensures
            (match spec_decode_player_status(*v) {
                Ok(t) => r matches Ok(a) && a == t,
                Err(e) => r matches Err(a) && a == e,
            }),
    {
        match v {
            JsonValue::Object(fields) => {
                let is_online = match bool_field(fields, "isOnline") {
                    Ok(b) => b,
                    Err(e) => {
                        return Err(e);
                    },
                };
                let is_npc = match bool_field(fields, "isNPC") {
                    Ok(b) => b,
                    Err(e) => {
                        return Err(e);
                    },
                };
                let is_mayor = match bool_field(fields, "isMayor") {
                    Ok(b) => b,
                    Err(e) => {
                        return Err(e);
                    },
                };
                let is_king = match bool_field(fields, "isKing") {
                    Ok(b) => b,
                    Err(e) => {
                        return Err(e);
                    },
                };
                let has_town = match bool_field(fields, "hasTown") {
                    Ok(b) => b,
                    Err(e) => {
                        return Err(e);
                    },
                };
                let has_nation = match bool_field(fields, "hasNation") {
                    Ok(b) => b,
                    Err(e) => {
                        return Err(e);
                    },
                };
                Ok(PlayerStatus { is_online, is_npc, is_mayor, is_king, has_town, has_nation })
            },
            _ => Err(DecodeError::NotAnObject),
        }
    }
}

/// Whether `v` is an array whose elements all name town ranks.
pub open spec fn spec_is_town_rank_array(v: JsonValue) -> bool {
    v matches JsonValue::Array(items) && (forall|i: int|
        0 <= i < items@.len() ==> ((#[trigger] items@[i]) matches JsonValue::Str(s)
            && spec_is_town_rank_text(s@)))
}

/// Whether `v` is an array whose elements all name nation ranks.
pub open spec fn spec_is_nation_rank_array(v: JsonValue) -> bool {
    v matches JsonValue::Array(items) && (forall|i: int|
        0 <= i < items@.len() ==> ((#[trigger] items@[i]) matches JsonValue::Str(s)
            && spec_is_nation_rank_text(s@)))
}

/// Decodes a wire array of town-rank names, preserving order.
pub fn decode_town_ranks(v: &JsonValue) -> (r: Result<Vec<TownRankKind>, DecodeError>)
    ensures
        r is Ok <==> spec_is_town_rank_array(*v),
        (r matches Ok(out) ==> *v matches JsonValue::Array(items) && out@.len() == items@.len()
            && (forall|i: int|
            0 <= i < out@.len() ==> out@[i] == spec_town_rank_of(
                (#[trigger] items@[i])->Str_0@,
            ))),
{
    match v {
        JsonValue::Array(items) => {
            let mut out: Vec<TownRankKind> = Vec::new();
            let mut i: usize = 0;
            let len = items.len();
            while i < len
                invariant
                    *v == JsonValue::Array(*items),
                    i <= len,
                    len == items@.len(),
                    out@.len() == i,
                    forall|j: int|
                        0 <= j < i ==> ((#[trigger] items@[j]) matches JsonValue::Str(s)
                            && spec_is_town_rank_text(s@)),
                    forall|j: int|
                        0 <= j < i ==> out@[j] == spec_town_rank_of(
                            (#[trigger] items@[j])->Str_0@,
                        ),
                decreases len - i,
            {
                match &items[i] {
                    JsonValue::Str(s) => match decode_town_rank(s.as_str()) {
                        Ok(k) => out.push(k),
                        Err(e) => {
                            return Err(e);
                        },
                    },
                    _ => {
                        return Err(DecodeError::WrongFieldType);
                    },
                }
                i += 1;
            }
            Ok(out)
        },
        _ => Err(DecodeError::NotAnArray),
    }
}

/// Decodes a wire array of nation-rank names, preserving order.
pub fn decode_nation_ranks(v: &JsonValue) -> (r: Result<Vec<NationRankKind>, DecodeError>)
    ensures
        r is Ok <==> spec_is_nation_rank_array(*v),
        (r matches Ok(out) ==> *v matches JsonValue::Array(items) && out@.len() == items@.len()
            && (forall|i: int|
            0 <= i < out@.len() ==> out@[i] == spec_nation_rank_of(
                (#[trigger] items@[i])->Str_0@,
            ))),
{
    match v {
        JsonValue::Array(items) => {
            let mut out: Vec<NationRankKind> = Vec::new();
            let mut i: usize = 0;
            let len = items.len();
            while i < len
                invariant
                    *v == JsonValue::Array(*items),
                    i <= len,
                    len == items@.len(),
                    out@.len() == i,
                    forall|j: int|
                        0 <= j < i ==> ((#[trigger] items@[j]) matches JsonValue::Str(s)
                            && spec_is_nation_rank_text(s@)),
                    forall|j: int|
                        0 <= j < i ==> out@[j] == spec_nation_rank_of(
                            (#[trigger] items@[j])->Str_0@,
                        ),
                decreases len - i,
            {
                match &items[i] {
                    JsonValue::Str(s) => match decode_nation_rank(s.as_str()) {
                        Ok(k) => out.push(k),
                        Err(e) => {
                            return Err(e);
                        },
                    },
                    _ => {
                        return Err(DecodeError::WrongFieldType);
                    },
                }
                i += 1;
            }
            Ok(out)
        },
        _ => Err(DecodeError::NotAnArray),
    }
}

impl PlayerRanks {
    /// Decodes the player's rank object: the `townRanks` and `nationRanks`
    /// arrays, each kept in order.
    pub fn decode(v: &JsonValue) -> (r: Result<PlayerRanks, DecodeError>)
        ensures
            r is Ok <==> (*v matches JsonValue::Object(fields) && (spec_get(
                fields@,
                "townRanks"@,
            ) matches Some(tv) && spec_is_town_rank_array(tv)) && (spec_get(
                fields@,
                "nationRanks"@,
            ) matches Some(nv) && spec_is_nation_rank_array(nv))),
            (r matches Ok(ranks) ==> *v matches JsonValue::Object(fields) && (spec_get(
                fields@,
                "townRanks"@,
            ) matches Some(tv) && tv matches JsonValue::Array(titems) && ranks.town_ranks@.len()
                == titems@.len() && (forall|i: int|
                0 <= i < titems@.len() ==> ranks.town_ranks@[i] == spec_town_rank_of(
                    (#[trigger] titems@[i])->Str_0@,
                ))) && (spec_get(fields@, "nationRanks"@) matches Some(nv)
                && nv matches JsonValue::Array(nitems) && ranks.nation_ranks@.len()
                == nitems@.len() && (forall|i: int|
                0 <= i < nitems@.len() ==> ranks.nation_ranks@[i] == spec_nation_rank_of(
                    (#[trigger] nitems@[i])->Str_0@,
                )))),
    {
        match v {
            JsonValue::Object(fields) => {
                let town_ranks = match crate::json::get_field(fields, "townRanks") {
                    Option::None => {
                        return Err(DecodeError::MissingField);
                    },
                    Option::Some(tv) => match decode_town_ranks(tv) {
                        Ok(t) => t,
                        Err(e) => {
                            return Err(e);
                        },
                    },
                };
                let nation_ranks = match crate::json::get_field(fields, "nationRanks") {
                    Option::None => {
                        return Err(DecodeError::MissingField);
                    },
                    Option::Some(nv) => match decode_nation_ranks(nv) {
                        Ok(t) => t,
                        Err(e) => {
                            return Err(e);
                        },
                    },
                };
                Ok(PlayerRanks { town_ranks, nation_ranks })
            },
            _ => Err(DecodeError::NotAnObject),
        }
    }
}

} // verus!
