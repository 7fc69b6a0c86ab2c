//! A link between a game account and a chat account.

use vstd::prelude::*;

use crate::json::{get_field, spec_get, DecodeError, JsonValue};
use crate::uuids::{spec_is_uuid_text, spec_uuid_bytes, Uuid};

verus! {

/// One account link, as the link-lookup endpoint reports it.
#[derive(Debug, PartialEq, Eq)]
pub struct DiscordLink {
    /// The chat service's user identifier (a snowflake, as text).
    pub id: String,
    /// The game account's identifier.
    pub uuid: Uuid,
}

/// The error an invalid account link decodes to; the fields are examined in
/// the order `id`, `uuid`.
pub open spec fn spec_discord_link_error(v: JsonValue) -> DecodeError {
    match v {
        JsonValue::Object(fields) => match spec_get(fields@, "id"@) {
            Option::None => DecodeError::MissingField,
            Option::Some(iv) => if !(iv is Str) {
                DecodeError::WrongFieldType
            } else {
                match spec_get(fields@, "uuid"@) {
                    Option::None => DecodeError::MissingField,
                    Option::Some(uv) => if !(uv is Str) {
                        DecodeError::WrongFieldType
                    } else {
                        DecodeError::BadUuid
                    },
                }
            },
        },
        _ => DecodeError::NotAnObject,
    }
}

/// Whether `v` is an object that decodes as an account link.
pub open spec fn spec_is_discord_link(v: JsonValue) -> bool {
    &&& v matches JsonValue::Object(fields)
    &&& spec_get(fields@, "id"@) matches Some(iv) && iv is Str
    &&& spec_get(fields@, "uuid"@) matches Some(uv) && uv matches JsonValue::Str(us)
        && spec_is_uuid_text(us@)
}

impl DiscordLink {
    /// Decodes a wire object with `id` and `uuid` fields.
    pub fn decode(v: &JsonValue) -> (r: Result<DiscordLink, DecodeError>)
        ensures
            r is Ok <==> spec_is_discord_link(*v),
            (r matches Ok(l) ==> *v matches JsonValue::Object(fields) && (spec_get(fields@, "id"@)
                matches Some(iv) && iv matches JsonValue::Str(is_) && is_@ == l.id@) && (spec_get(
                fields@,
                "uuid"@,
            ) matches Some(uv) && uv matches JsonValue::Str(us) && spec_uuid_bytes(us@)
                == l.uuid.bytes@)),
            (r matches Err(e) ==> e == spec_discord_link_error(*v)),
    {
        match v {
            JsonValue::Object(fields) => {
                let id = match get_field(fields, "id") {
                    Option::Some(iv) => match iv {
                        JsonValue::Str(s) => s.clone(),
                        _ => {
                            return Err(DecodeError::WrongFieldType);
                        },
                    },
                    Option::None => {
                        return Err(DecodeError::MissingField);
                    },
                };
                let uuid = match get_field(fields, "uuid") {
                    Option::Some(uv) => match uv {
                        JsonValue::Str(s) => match Uuid::parse(s.as_str()) {
                            Ok(u) => u,
                            Err(_) => {
                                return Err(DecodeError::BadUuid);
                            },
                        },
                        _ => {
                            return Err(DecodeError::WrongFieldType);
                        },
                    },
                    Option::None => {
                        return Err(DecodeError::MissingField);
                    },
                };
                Ok(DiscordLink { id, uuid })
            },
            _ => Err(DecodeError::NotAnObject),
        }
    }
}

} // verus!
