//! Name-and-identifier summaries: the element type of every collection
//! listing the API returns, and its wire codec.

use vstd::prelude::*;
use vstd::string::StringExecFns;

use crate::json::{get_field, spec_get, DecodeError, JsonValue};
use crate::uuids::{spec_hyphenated, spec_is_uuid_text, spec_uuid_bytes, Uuid};

verus! {

/// An object with a name and an identifier, which can be specialized to
/// required or optional fields.
#[derive(Debug, PartialEq, Eq)]
pub struct NamedIdGeneric<N, U> {
    pub name: N,
    pub uuid: U,
}

/// A summary with both fields present.
pub type NamedId = NamedIdGeneric<String, Uuid>;

/// A summary whose fields may each be absent (reported as JSON null).
pub type NamedIdOpt = NamedIdGeneric<Option<String>, Option<Uuid>>;

/// Whether `v` is an object that decodes as a summary: a `name` text field
/// and a `uuid` field holding well-formed hyphenated identifier text.
pub open spec fn spec_is_named_id(v: JsonValue) -> bool {
    &&& v matches JsonValue::Object(fields)
    &&& spec_get(fields@, "name"@) matches Some(nv) && nv is Str
    &&& spec_get(fields@, "uuid"@) matches Some(uv) && uv matches JsonValue::Str(us)
        && spec_is_uuid_text(us@)
}

/// Whether the summary `(name, uuid)` is what `v` decodes to.
pub open spec fn spec_named_id_fields(v: JsonValue, name: Seq<char>, uuid: Seq<u8>) -> bool {
    &&& v matches JsonValue::Object(fields)
    &&& spec_get(fields@, "name"@) matches Some(nv) && nv matches JsonValue::Str(ns) && ns@ == name
    &&& spec_get(fields@, "uuid"@) matches Some(uv) && uv matches JsonValue::Str(us)
        && spec_is_uuid_text(us@) && spec_uuid_bytes(us@) == uuid
}

/// The error an invalid summary decodes to; the fields are examined in the
/// order `name`, `uuid`.
pub open spec fn spec_named_id_error(v: JsonValue) -> DecodeError {
    match v {
        JsonValue::Object(fields) => match spec_get(fields@, "name"@) {
            Option::None => DecodeError::MissingField,
            Option::Some(nv) => if !(nv is Str) {
                DecodeError::WrongFieldType
            } else {
                match spec_get(fields@, "uuid"@) {
                    Option::None => DecodeError::MissingField,
                    Option::Some(uv) => if !(uv is Str) {
                        DecodeError::WrongFieldType
                    } else {
                        DecodeError::BadUuid
                    },
                }
            },
        },
        _ => DecodeError::NotAnObject,
    }
}

impl NamedId {
    /// Decodes a wire object with `name` and `uuid` fields.
    pub fn decode(v: &JsonValue) -> (r: Result<NamedId, DecodeError>)
        ensures
            r is Ok <==> spec_is_named_id(*v),
            (r matches Ok(n) ==> spec_named_id_fields(*v, n.name@, n.uuid.bytes@)),
            (r matches Err(e) ==> e == spec_named_id_error(*v)),
    {
        match v {
            JsonValue::Object(fields) => {
                let name = match get_field(fields, "name") {
                    Option::Some(nv) => match nv {
                        JsonValue::Str(s) => s.clone(),
                        _ => {
                            return Err(DecodeError::WrongFieldType);
                        },
                    },
                    Option::None => {
                        return Err(DecodeError::MissingField);
                    },
                };
                let uuid = match get_field(fields, "uuid") {
                    Option::Some(uv) => match uv {
                        JsonValue::Str(s) => match Uuid::parse(s.as_str()) {
                            Ok(u) => u,
                            Err(_) => {
                                return Err(DecodeError::BadUuid);
                            },
                        },
                        _ => {
                            return Err(DecodeError::WrongFieldType);
                        },
                    },
                    Option::None => {
                        return Err(DecodeError::MissingField);
                    },
                };
                Ok(NamedIdGeneric { name, uuid })
            },
            _ => Err(DecodeError::NotAnObject),
        }
    }

    /// Encodes this summary as the wire object, `name` first.
    pub fn encode(&self) -> (r: JsonValue)
        ensures
            is_named_id_encoding(r, self.name@, self.uuid.bytes@),
    {
        let mut fields: Vec<(String, JsonValue)> = Vec::new();
        fields.push((String::from_str("name"), JsonValue::Str(self.name.clone())));
        fields.push((String::from_str("uuid"), JsonValue::Str(self.uuid.to_hyphenated())));
        JsonValue::Object(fields)
    }
}

/// Whether `v` is the canonical encoding of the summary `(name, uuid)`.
pub open spec fn is_named_id_encoding(v: JsonValue, name: Seq<char>, uuid: Seq<u8>) -> bool {
    &&& v matches JsonValue::Object(fields)
    &&& fields@.len() == 2
    &&& fields@[0].0@ == "name"@
    &&& fields@[0].1 matches JsonValue::Str(ns) && ns@ == name
    &&& fields@[1].0@ == "uuid"@
    &&& fields@[1].1 matches JsonValue::Str(us) && us@ == spec_hyphenated(uuid)
}

/// Law: an encoded summary is well-formed and decodes to the same name and
/// identifier bytes.
pub proof fn lemma_named_id_round_trip(v: JsonValue, name: Seq<char>, uuid: Seq<u8>)
    requires
        is_named_id_encoding(v, name, uuid),
        uuid.len() == 16,
    ensures
        spec_is_named_id(v),
        spec_named_id_fields(v, name, uuid),
{
    reveal_strlit("name");
    reveal_strlit("uuid");
    assert("name"@.len() == 4);
    assert("uuid"@.len() == 4);
    assert("name"@[0] == 'n');
    assert("uuid"@[0] == 'u');
    let f = v->Object_0@;
    let f1 = f.drop_first();
    assert(f1[0] == f[1]);
    assert(spec_get(f, "name"@) == Some(f[0].1));
    assert(spec_get(f1, "uuid"@) == Some(f[1].1));
    assert(spec_get(f, "uuid"@) == Some(f[1].1));
    crate::uuids::lemma_uuid_text_round_trip(uuid);
    let us = f[1].1->Str_0;
    assert(us@ == spec_hyphenated(uuid));
    assert(spec_is_uuid_text(us@));
    assert(spec_uuid_bytes(us@) =~= uuid);
}

/// The least index whose element is not a well-formed summary, or the length
/// when every element is one.
pub open spec fn first_invalid_named_id(items: Seq<JsonValue>) -> int
    decreases items.len(),
{
    if items.len() == 0 {
        0
    } else if !spec_is_named_id(items[0]) {
        0
    } else {
        1 + first_invalid_named_id(items.drop_first())
    }
}

pub proof fn lemma_first_invalid_named_id_is(items: Seq<JsonValue>, i: int)
    requires
        0 <= i <= items.len(),
        forall|j: int| 0 <= j < i ==> spec_is_named_id(items[j]),
        i < items.len() ==> !spec_is_named_id(items[i]),
    ensures
        first_invalid_named_id(items) == i,
    decreases items.len(),
{
    if items.len() == 0 || i == 0 {
    } else {
        assert(forall|j: int| 0 <= j < i - 1 ==> items.drop_first()[j] == items[j + 1]);
        if i - 1 < items.drop_first().len() {
            assert(items.drop_first()[i - 1] == items[i]);
        }
        lemma_first_invalid_named_id_is(items.drop_first(), i - 1);
    }
}

/// Decodes a wire array of summaries, preserving order and count: the `i`-th
/// summary of the result decodes the `i`-th element of the array. A query for
/// identifiers the server does not know yields a shorter array, never an
/// error, so the count of the result is exactly the count the server
/// reported.
pub fn decode_named_id_array(v: &JsonValue) -> (r: Result<Vec<NamedId>, DecodeError>)
    ensures
        r is Ok <==> (*v matches JsonValue::Array(items) && (forall|i: int|
            0 <= i < items@.len() ==> spec_is_named_id(#[trigger] items@[i]))),
        (r matches Ok(out) ==> *v matches JsonValue::Array(items) && out@.len() == items@.len()
            && (forall|i: int|
            0 <= i < out@.len() ==> spec_named_id_fields(
                #[trigger] items@[i],
                out@[i].name@,
                out@[i].uuid.bytes@,
            ))),
        (r matches Err(e) ==> (match *v {
            JsonValue::Array(items) => {
                let fb = first_invalid_named_id(items@);
                0 <= fb < items@.len() && e == spec_named_id_error(items@[fb])
            },
            _ => e == DecodeError::NotAnArray,
        })),
{
    match v {
        JsonValue::Array(items) => {
            let mut out: Vec<NamedId> = Vec::new();
            let mut i: usize = 0;
            let len = items.len();
            while i < len
                invariant
                    *v == JsonValue::Array(*items),
                    i <= len,
                    len == items@.len(),
                    out@.len() == i,
                    forall|j: int| 0 <= j < i ==> spec_is_named_id(#[trigger] items@[j]),
                    forall|j: int|
                        0 <= j < i ==> spec_named_id_fields(
                            #[trigger] items@[j],
                            out@[j].name@,
                            out@[j].uuid.bytes@,
                        ),
                decreases len - i,
            {
                match NamedId::decode(&items[i]) {
                    Ok(n) => out.push(n),
                    Err(e) => {
                        proof {
                            lemma_first_invalid_named_id_is(items@, i as int);
                        }
                        return Err(e);
                    },
                }
                i += 1;
            }
            Ok(out)
        },
        _ => Err(DecodeError::NotAnArray),
    }
}

/// The least index whose element is not an array of well-formed summaries,
/// or the length when every element is one.
pub open spec fn first_invalid_named_id_group(items: Seq<JsonValue>) -> int
    decreases items.len(),
{
    if items.len() == 0 {
        0
    } else if !spec_is_named_id_group(items[0]) {
        0
    } else {
        1 + first_invalid_named_id_group(items.drop_first())
    }
}

/// Whether `v` is an array whose elements are all well-formed summaries.
pub open spec fn spec_is_named_id_group(v: JsonValue) -> bool {
    v matches JsonValue::Array(items) && (forall|i: int|
        0 <= i < items@.len() ==> spec_is_named_id(#[trigger] items@[i]))
}

pub proof fn lemma_first_invalid_named_id_group_is(items: Seq<JsonValue>, i: int)
    requires
        0 <= i <= items.len(),
        forall|j: int| 0 <= j < i ==> spec_is_named_id_group(items[j]),
        i < items.len() ==> !spec_is_named_id_group(items[i]),
    ensures
        first_invalid_named_id_group(items) == i,
    decreases items.len(),
{
    if items.len() == 0 || i == 0 {
    } else {
        assert(forall|j: int| 0 <= j < i - 1 ==> items.drop_first()[j] == items[j + 1]);
        if i - 1 < items.drop_first().len() {
            assert(items.drop_first()[i - 1] == items[i]);
        }
        lemma_first_invalid_named_id_group_is(items.drop_first(), i - 1);
    }
}

/// Decodes a wire array of summary arrays, as the nearby search returns:
/// one group per search item, index-aligned with the outer array, each group
/// decoded as `decode_named_id_array` does. An empty group stays an empty
/// group at its own index.
pub fn decode_named_id_groups(v: &JsonValue) -> (r: Result<Vec<Vec<NamedId>>, DecodeError>)
    ensures
        r is Ok <==> (*v matches JsonValue::Array(items) && (forall|i: int|
            0 <= i < items@.len() ==> spec_is_named_id_group(#[trigger] items@[i]))),
        (r matches Ok(out) ==> *v matches JsonValue::Array(items) && out@.len() == items@.len()
            && (forall|i: int, j: int|
            0 <= i < out@.len() && 0 <= j < out@[i]@.len() ==> spec_named_id_fields(
                (#[trigger] items@[i])->Array_0@[j],
                (#[trigger] out@[i]@[j]).name@,
                out@[i]@[j].uuid.bytes@,
            ))),
        (r matches Ok(out) ==> *v matches JsonValue::Array(items) && (forall|i: int|
            0 <= i < out@.len() ==> (#[trigger] out@[i])@.len() == items@[i]->Array_0@.len())),
        (r matches Err(e) ==> (match *v {
            JsonValue::Array(items) => {
                let fb = first_invalid_named_id_group(items@);
                0 <= fb < items@.len()
            },
            _ => e == DecodeError::NotAnArray,
        })),
{
    match v {
        JsonValue::Array(items) => {
            let mut out: Vec<Vec<NamedId>> = Vec::new();
            let mut i: usize = 0;
            let len = items.len();
            while i < len
                invariant
                    *v == JsonValue::Array(*items),
                    i <= len,
                    len == items@.len(),
                    out@.len() == i,
                    forall|j: int| 0 <= j < i ==> spec_is_named_id_group(#[trigger] items@[j]),
                    forall|j: int|
                        0 <= j < i ==> (#[trigger] out@[j])@.len() == items@[j]->Array_0@.len(),
                    forall|j: int, k: int|
                        0 <= j < i && 0 <= k < out@[j]@.len() ==> spec_named_id_fields(
                            (#[trigger] items@[j])->Array_0@[k],
                            (#[trigger] out@[j]@[k]).name@,
                            out@[j]@[k].uuid.bytes@,
                        ),
                decreases len - i,
            {
                match decode_named_id_array(&items[i]) {
                    Ok(group) => out.push(group),
                    Err(e) => {
                        proof {
                            lemma_first_invalid_named_id_group_is(items@, i as int);
                        }
                        return Err(e);
                    },
                }
                i += 1;
            }
            Ok(out)
        },
        _ => Err(DecodeError::NotAnArray),
    }
}

} // verus!
