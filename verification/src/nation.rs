//! The nation record family: the parts of a nation snapshot that carry plain
//! counts, flags, timestamps and ranks, with their wire decoders.

use vstd::prelude::*;

use crate::json::{
    bool_field, i64_field, spec_bool_field, spec_i64_field, str_eq, DecodeError, JsonValue,
};

verus! {

/// Timestamps a nation reports.
#[derive(Debug, Clone, Copy, PartialEq, Eq, Structural)]
pub struct NationTimestamps {
    /// Unix timestamp of when the nation was created.
    pub registered: i64,
}

/// The flags a nation reports.
#[derive(Debug, Clone, Copy, PartialEq, Eq, Structural)]
pub struct NationStatus {
    /// Whether the nation is public.
    pub is_public: bool,
    /// Whether the nation is open (invite-less joining enabled).
    pub is_open: bool,
    /// Whether the nation is neutral.
    pub is_neutral: bool,
}

/// A rank a resident can hold in a nation.
#[derive(Debug, Clone, Copy, PartialEq, Eq, PartialOrd, Ord, Hash, Structural)]
pub enum NationRankKind {
    Chancellor,
    Colonist,
    Diplomat,
}

/// The wire name of a nation rank.
pub open spec fn spec_nation_rank_text(k: NationRankKind) -> Seq<char> {
    match k {
        NationRankKind::Chancellor => "Chancellor"@,
        NationRankKind::Colonist => "Colonist"@,
        NationRankKind::Diplomat => "Diplomat"@,
    }
}

/// Whether a piece of text names a nation rank.
pub open spec fn spec_is_nation_rank_text(t: Seq<char>) -> bool {
    t == "Chancellor"@ || t == "Colonist"@ || t == "Diplomat"@
}

/// The nation rank a wire name denotes; meaningful only for valid names.
pub open spec fn spec_nation_rank_of(t: Seq<char>) -> NationRankKind {
    if t == "Chancellor"@ {
        NationRankKind::Chancellor
    } else if t == "Colonist"@ {
        NationRankKind::Colonist
    } else {
        NationRankKind::Diplomat
    }
}

/// Decodes the wire name of a nation rank.
pub fn decode_nation_rank(s: &str) -> (r: Result<NationRankKind, DecodeError>)
    ensures
        r is Ok <==> spec_is_nation_rank_text(s@),
        (r matches Ok(k) ==> spec_nation_rank_text(k) == s@ && k == spec_nation_rank_of(s@)),
        (r matches Err(e) ==> e == DecodeError::UnknownVariant),
{
    if str_eq(s, "Chancellor") {
        Ok(NationRankKind::Chancellor)
    } else if str_eq(s, "Colonist") {
        Ok(NationRankKind::Colonist)
    } else if str_eq(s, "Diplomat") {
        Ok(NationRankKind::Diplomat)
    } else {
        Err(DecodeError::UnknownVariant)
    }
}

/// What decoding the nation's timestamp object yields.
pub open spec fn spec_decode_nation_timestamps(v: JsonValue) -> Result<
    NationTimestamps,
    DecodeError,
> {
    match v {
        JsonValue::Object(fields) => match spec_i64_field(fields@, "registered"@) {
            Err(e) => Err(e),
            Ok(registered) => Ok((NationTimestamps { registered })),
        },
        _ => Err(DecodeError::NotAnObject),
    }
}

impl NationTimestamps {
    /// Decodes the nation's timestamp object.
    pub fn decode(v: &JsonValue) -> (r: Result<NationTimestamps, DecodeError>)
        ensures
            (match spec_decode_nation_timestamps(*v) {
                Ok(t) => r matches Ok(a) && a == t,
                Err(e) => r matches Err(a) && a == e,
            }),
    {
        match v {
            JsonValue::Object(fields) => {
                let registered = match i64_field(fields, "registered") {
                    Ok(n) => n,
                    Err(e) => {
                        return Err(e);
                    },
                };
                Ok(NationTimestamps { registered })
            },
            _ => Err(DecodeError::NotAnObject),
        }
    }
}

/// What decoding the nation's flag object yields; the fields are examined
/// in declaration order.
pub open spec fn spec_decode_nation_status(v: JsonValue) -> Result<NationStatus, DecodeError> {
    match v {
        JsonValue::Object(fields) => match spec_bool_field(fields@, "isPublic"@) {
            Err(e) => Err(e),
            Ok(is_public) => match spec_bool_field(fields@, "isOpen"@) {
                Err(e) => Err(e),
                Ok(is_open) => match spec_bool_field(fields@, "isNeutral"@) {
                    Err(e) => Err(e),
                    Ok(is_neutral) => Ok((NationStatus { is_public, is_open, is_neutral })),
                },
            },
        },
        _ => Err(DecodeError::NotAnObject),
    }
}

impl NationStatus {
    /// Decodes the nation's flag object.
    pub fn decode(v: &JsonValue) -> (r: Result<NationStatus, DecodeError>)
        ensures
            (match spec_decode_nation_status(*v) {
                Ok(t) => r matches Ok(a) && a == t,
                Err(e) => r matches Err(a) && a == e,
            }),
    {
        match v {
            JsonValue::Object(fields) => {
                let is_public = match bool_field(fields, "isPublic") {
                    Ok(b) => b,
                    Err(e) => {
                        return Err(e);
                    },
                };
                let is_open = match bool_field(fields, "isOpen") {
                    Ok(b) => b,
                    Err(e) => {
                        return Err(e);
                    },
                };
                let is_neutral = match bool_field(fields, "isNeutral") {
                    Ok(b) => b,
                    Err(e) => {
                        return Err(e);
                    },
                };
                Ok(NationStatus { is_public, is_open, is_neutral })
            },
            _ => Err(DecodeError::NotAnObject),
        }
    }
}

} // verus!
