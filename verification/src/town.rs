//! The town record family: the parts of a town snapshot that carry plain
//! counts, flags, timestamps and ranks, with their wire decoders.

use vstd::prelude::*;

use crate::json::{
    bool_field, i64_field, opt_i64_field, spec_bool_field, spec_i64_field, spec_opt_i64_field,
    str_eq, DecodeError, JsonValue,
};

verus! {

/// Timestamps a town reports.
#[derive(Debug, Clone, Copy, PartialEq, Eq, Structural)]
pub struct TownTimestamps {
    /// Unix timestamp of when the town was created.
    pub registered: i64,
    /// Unix timestamp of when the town joined its current nation.
    pub joined_nation_at: i64,
    /// Unix timestamp of when the town fell into ruin, if it did.
    pub ruined_at: Option<i64>,
}

/// The flags a town reports.
#[derive(Debug, Clone, Copy, PartialEq, Eq, Structural)]
pub struct TownStatus {
    /// Whether the town is public.
    pub is_public: bool,
    /// Whether the town is open (invite-less joining enabled).
    pub is_open: bool,
    /// Whether the town is neutral.
    pub is_neutral: bool,
    /// Whether the town is its nation's capital.
    pub is_capital: bool,
    /// Whether the town has more claims than it should.
    pub is_over_claimed: bool,
    /// Whether the town is ruined.
    pub is_ruined: bool,
    /// Whether the town is for sale.
    pub is_for_sale: bool,
    /// Whether the town has a nation.
    pub has_nation: bool,
    /// Whether the town currently has an overclaim shield.
    pub has_overclaim_shield: bool,
    /// Whether outsiders may teleport to the town's spawn point.
    pub can_outsiders_spawn: bool,
}

/// A rank a resident can hold in a town.
#[derive(Debug, Clone, Copy, PartialEq, Eq, PartialOrd, Ord, Hash, Structural)]
pub enum TownRankKind {
    Councillor,
    Builder,
    Recruiter,
    Police,
    TaxExempt,
    Treasurer,
    Realtor,
    Settler,
}

/// The wire name of a town rank.
pub open spec fn spec_town_rank_text(k: TownRankKind) -> Seq<char> {
    match k {
        TownRankKind::Councillor => "Councillor"@,
        TownRankKind::Builder => "Builder"@,
        TownRankKind::Recruiter => "Recruiter"@,
        TownRankKind::Police => "Police"@,
        TownRankKind::TaxExempt => "Tax-exempt"@,
        TownRankKind::Treasurer => "Treasurer"@,
        TownRankKind::Realtor => "Realtor"@,
        TownRankKind::Settler => "Settler"@,
    }
}

/// Whether a piece of text names a town rank.
pub open spec fn spec_is_town_rank_text(t: Seq<char>) -> bool {
    ||| t == "Councillor"@
    ||| t == "Builder"@
    ||| t == "Recruiter"@
    ||| t == "Police"@
    ||| t == "Tax-exempt"@
    ||| t == "Treasurer"@
    ||| t == "Realtor"@
    ||| t == "Settler"@
}

/// The town rank a wire name denotes; meaningful only for valid names.
pub open spec fn spec_town_rank_of(t: Seq<char>) -> TownRankKind {
    if t == "Councillor"@ {
        TownRankKind::Councillor
    } else if t == "Builder"@ {
        TownRankKind::Builder
    } else if t == "Recruiter"@ {
        TownRankKind::Recruiter
    } else if t == "Police"@ {
        TownRankKind::Police
    } else if t == "Tax-exempt"@ {
        TownRankKind::TaxExempt
    } else if t == "Treasurer"@ {
        TownRankKind::Treasurer
    } else if t == "Realtor"@ {
        TownRankKind::Realtor
    } else {
        TownRankKind::Settler
    }
}

/// Decodes the wire name of a town rank.
pub fn decode_town_rank(s: &str) -> (r: Result<TownRankKind, DecodeError>)
    ensures
        r is Ok <==> spec_is_town_rank_text(s@),
        (r matches Ok(k) ==> spec_town_rank_text(k) == s@ && k == spec_town_rank_of(s@)),
        (r matches Err(e) ==> e == DecodeError::UnknownVariant),
{
    if str_eq(s, "Councillor") {
        Ok(TownRankKind::Councillor)
    } else if str_eq(s, "Builder") {
        Ok(TownRankKind::Builder)
    } else if str_eq(s, "Recruiter") {
        Ok(TownRankKind::Recruiter)
    } else if str_eq(s, "Police") {
        Ok(TownRankKind::Police)
    } else if str_eq(s, "Tax-exempt") {
        Ok(TownRankKind::TaxExempt)
    } else if str_eq(s, "Treasurer") {
        Ok(TownRankKind::Treasurer)
    } else if str_eq(s, "Realtor") {
        Ok(TownRankKind::Realtor)
    } else if str_eq(s, "Settler") {
        Ok(TownRankKind::Settler)
    } else {
        Err(DecodeError::UnknownVariant)
    }
}

/// What decoding the town's timestamp object yields; the fields are
/// examined in declaration order, and a ruin time of null means the town
/// never fell into ruin.
pub open spec fn spec_decode_town_timestamps(v: JsonValue) -> Result<TownTimestamps, DecodeError> {
    match v {
        JsonValue::Object(fields) => match spec_i64_field(fields@, "registered"@) {
            Err(e) => Err(e),
            Ok(registered) => match spec_i64_field(fields@, "joinedNationAt"@) {
                Err(e) => Err(e),
                Ok(joined_nation_at) => match spec_opt_i64_field(fields@, "ruinedAt"@) {
                    Err(e) => Err(e),
                    Ok(ruined_at) => Ok(
                        (TownTimestamps { registered, joined_nation_at, ruined_at }),
                    ),
                },
            },
        },
        _ => Err(DecodeError::NotAnObject),
    }
}

impl TownTimestamps {
    /// Decodes the town's timestamp object.
    pub fn decode(v: &JsonValue) -> (r: Result<TownTimestamps, DecodeError>)
        ensures
            (match spec_decode_town_timestamps(*v) {
                Ok(t) => r matches Ok(a) && a == t,
                Err(e) => r matches Err(a) && a == e,
            }),
    {
        match v {
            JsonValue::Object(fields) => {
                let registered = match i64_field(fields, "registered") {
                    Ok(n) => n,
                    Err(e) => {
                        return Err(e);
                    },
                };
                let joined_nation_at = match i64_field(fields, "joinedNationAt") {
                    Ok(n) => n,
                    Err(e) => {
                        return Err(e);
                    },
                };
                let ruined_at = match opt_i64_field(fields, "ruinedAt") {
                    Ok(n) => n,
                    Err(e) => {
                        return Err(e);
                    },
                };
                Ok(TownTimestamps { registered, joined_nation_at, ruined_at })
            },
            _ => Err(DecodeError::NotAnObject),
        }
    }
}

/// What decoding the town's flag object yields; the fields are examined in
/// declaration order.
pub open spec fn spec_decode_town_status(v: JsonValue) -> Result<TownStatus, DecodeError> {
    match v {
        JsonValue::Object(fields) => match spec_bool_field(fields@, "isPublic"@) {
            Err(e) => Err(e),
            Ok(is_public) => match spec_bool_field(fields@, "isOpen"@) {
                Err(e) => Err(e),
                Ok(is_open) => match spec_bool_field(fields@, "isNeutral"@) {
                    Err(e) => Err(e),
                    Ok(is_neutral) => match spec_bool_field(fields@, "isCapital"@) {
                        Err(e) => Err(e),
                        Ok(is_capital) => match spec_bool_field(fields@, "isOverClaimed"@) {
                            Err(e) => Err(e),
                            Ok(is_over_claimed) => match spec_bool_field(fields@, "isRuined"@) {
                                Err(e) => Err(e),
                                Ok(is_ruined) => match spec_bool_field(fields@, "isForSale"@) {
                                    Err(e) => Err(e),
                                    Ok(is_for_sale) => match spec_bool_field(
                                        fields@,
                                        "hasNation"@,
                                    ) {
                                        Err(e) => Err(e),
                                        Ok(has_nation) => match spec_bool_field(
                                            fields@,
                                            "hasOverclaimShield"@,
                                        ) {
                                            Err(e) => Err(e),
                                            Ok(has_overclaim_shield) => match spec_bool_field(
                                                fields@,
                                                "canOutsidersSpawn"@,
                                            ) {
                                                Err(e) => Err(e),
                                                Ok(can_outsiders_spawn) => Ok(
                                                    (TownStatus {
                                                        is_public,
                                                        is_open,
                                                        is_neutral,
                                                        is_capital,
                                                        is_over_claimed,
                                                        is_ruined,
                                                        is_for_sale,
                                                        has_nation,
                                                        has_overclaim_shield,
                                                        can_outsiders_spawn,
                                                    }),
                                                ),
                                            },
                                        },
                                    },
                                },
                            },
                        },
                    },
                },
            },
        },
        _ => Err(DecodeError::NotAnObject),
    }
}

impl TownStatus {
    /// Decodes the town's flag object.
    pub fn decode(v: &JsonValue) -> (r: Result<TownStatus, DecodeError>)
        ensures
            (match spec_decode_town_status(*v) {
                Ok(t) => r matches Ok(a) && a == t,
                Err(e) => r matches Err(a) && a == e,
            }),
    {
        match v {
            JsonValue::Object(fields) => {
                let is_public = match bool_field(fields, "isPublic") {
                    Ok(b) => b,
                    Err(e) => {
                        return Err(e);
                    },
                };
                let is_open = match bool_field(fields, "isOpen") {
                    Ok(b) => b,
                    Err(e) => {
                        return Err(e);
                    },
                };
                let is_neutral = match bool_field(fields, "isNeutral") {
                    Ok(b) => b,
                    Err(e) => {
                        return Err(e);
                    },
                };
                let is_capital = match bool_field(fields, "isCapital") {
                    Ok(b) => b,
                    Err(e) => {
                        return Err(e);
                    },
                };
                let is_over_claimed = match bool_field(fields, "isOverClaimed") {
                    Ok(b) => b,
                    Err(e) => {
                        return Err(e);
                    },
                };
                let is_ruined = match bool_field(fields, "isRuined") {
                    Ok(b) => b,
                    Err(e) => {
                        return Err(e);
                    },
                };
                let is_for_sale = match bool_field(fields, "isForSale") {
                    Ok(b) => b,
                    Err(e) => {
                        return Err(e);
                    },
                };
                let has_nation = match bool_field(fields, "hasNation") {
                    Ok(b) => b,
                    Err(e) => {
                        return Err(e);
                    },
                };
                let has_overclaim_shield = match bool_field(fields, "hasOverclaimShield") {
                    Ok(b) => b,
                    Err(e) => {
                        return Err(e);
                    },
                };
                let can_outsiders_spawn = match bool_field(fields, "canOutsidersSpawn") {
                    Ok(b) => b,
                    Err(e) => {
                        return Err(e);
                    },
                };
                Ok(TownStatus {
                    is_public,
                    is_open,
                    is_neutral,
                    is_capital,
                    is_over_claimed,
                    is_ruined,
                    is_for_sale,
                    has_nation,
                    has_overclaim_shield,
                    can_outsiders_spawn,
                })
            },
            _ => Err(DecodeError::NotAnObject),
        }
    }
}

} // verus!
