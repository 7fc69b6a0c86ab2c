//! The quarter record family: kinds, flags, timestamps, cuboids, and the
//! compact byte-array colour codec.

use vstd::prelude::*;

use crate::block_position::{
    is_block_position_encoding, lemma_block_position_round_trip, spec_decode_block_position,
    BlockPosition,
};
use crate::json::{
    bool_field, decode_u8_array, get_field, i64_field, is_u8, lemma_first_bad_u8_at_least,
    opt_i64_field, spec_bool_field, spec_decode_u8_items, spec_get, spec_i64_field,
    spec_opt_i64_field, str_eq, DecodeError, JsonValue,
};
use vstd::string::StringExecFns;

verus! {

/// The kind of a quarter, or as the API calls it, its type.
#[derive(Debug, Clone, Copy, PartialEq, Eq, Structural)]
pub enum QuarterKind {
    /// The default kind of quarter.
    Apartment,
    /// Allows bed usage.
    Inn,
    /// Allows vehicle placing and usage.
    Station,
}

/// Timestamps a quarter reports.
#[derive(Debug, Clone, Copy, PartialEq, Eq, Structural)]
pub struct QuarterTimestamps {
    /// Unix timestamp of when the quarter was created.
    pub registered: i64,
    /// Unix timestamp of when the quarter was claimed, if it was.
    pub claimed_at: Option<i64>,
}

/// The flags a quarter reports.
#[derive(Debug, Clone, Copy, PartialEq, Eq, Structural)]
pub struct QuarterStatus {
    /// Whether the quarter is an embassy.
    pub is_embassy: bool,
    /// Whether the quarter is for sale.
    pub is_for_sale: bool,
}

/// An axis-aligned box between two corner positions.
#[derive(Debug, Clone, Copy, PartialEq, Eq, Structural)]
pub struct QuarterCuboid {
    pub corner_one: BlockPosition,
    pub corner_two: BlockPosition,
}

/// The display colour of a quarter: red, green, blue and alpha, carried on
/// the wire as a bare byte array of four elements, or three when the alpha
/// is omitted.
#[derive(Debug, Clone, Copy, PartialEq, Eq, Structural)]
pub struct QuarterColour {
    pub red: u8,
    pub green: u8,
    pub blue: u8,
    pub alpha: u8,
}

/// Whether `v` is the wire encoding of `c`: the array
/// `[red, green, blue, alpha]`.
pub open spec fn is_quarter_colour_encoding(v: JsonValue, c: QuarterColour) -> bool {
    v matches JsonValue::Array(items) && items@ == seq![
        JsonValue::Int(c.red as i64),
        JsonValue::Int(c.green as i64),
        JsonValue::Int(c.blue as i64),
        JsonValue::Int(c.alpha as i64),
    ]
}

/// What decoding a wire value as a quarter colour yields. Both compact
/// forms are accepted: four bytes, or three with the alpha defaulted to
/// fully opaque; every other length is rejected.
pub open spec fn spec_decode_quarter_colour(v: JsonValue) -> Result<QuarterColour, DecodeError> {
    match v {
        JsonValue::Array(items) => if items@.len() == 3 {
            match spec_decode_u8_items(items@, 3) {
                Ok(s) => Ok((QuarterColour { red: s[0], green: s[1], blue: s[2], alpha: 255 })),
                Err(e) => Err(e),
            }
        } else {
            match spec_decode_u8_items(items@, 4) {
                Ok(s) => Ok((QuarterColour { red: s[0], green: s[1], blue: s[2], alpha: s[3] })),
                Err(e) => Err(e),
            }
        },
        _ => Err(DecodeError::NotAnArray),
    }
}

impl QuarterColour {
    /// Encodes this colour as the four-element wire array.
    pub fn encode(&self) -> (r: JsonValue)
        ensures
            is_quarter_colour_encoding(r, *self),
    {
        let mut items: Vec<JsonValue> = Vec::new();
        items.push(JsonValue::Int(self.red as i64));
        items.push(JsonValue::Int(self.green as i64));
        items.push(JsonValue::Int(self.blue as i64));
        items.push(JsonValue::Int(self.alpha as i64));
        proof {
            assert(items@ =~= seq![
                JsonValue::Int(self.red as i64),
                JsonValue::Int(self.green as i64),
                JsonValue::Int(self.blue as i64),
                JsonValue::Int(self.alpha as i64),
            ]);
        }
        JsonValue::Array(items)
    }

    /// Decodes a wire value that must be an array of three or four bytes;
    /// a missing alpha defaults to fully opaque.
    pub fn decode(v: &JsonValue) -> (r: Result<QuarterColour, DecodeError>)
        ensures
            (match spec_decode_quarter_colour(*v) {
                Ok(c) => r matches Ok(d) && d == c,
                Err(e) => r matches Err(a) && a == e,
            }),
    {
        match v {
            JsonValue::Array(items) => {
                if items.len() == 3 {
                    match decode_u8_array(v, 3) {
                        Ok(vals) => Ok(
                            QuarterColour {
                                red: vals[0],
                                green: vals[1],
                                blue: vals[2],
                                alpha: 255,
                            },
                        ),
                        Err(e) => Err(e),
                    }
                } else {
                    match decode_u8_array(v, 4) {
                        Ok(vals) => Ok(
                            QuarterColour {
                                red: vals[0],
                                green: vals[1],
                                blue: vals[2],
                                alpha: vals[3],
                            },
                        ),
                        Err(e) => Err(e),
                    }
                }
            },
            _ => Err(DecodeError::NotAnArray),
        }
    }
}

/// Law: decoding any encoding of a quarter colour yields that colour back.
pub proof fn lemma_quarter_colour_round_trip(v: JsonValue, c: QuarterColour)
    requires
        is_quarter_colour_encoding(v, c),
    ensures
        spec_decode_quarter_colour(v) == Ok::<QuarterColour, DecodeError>(c),
{
    let items = v->Array_0;
    assert(is_u8(items@[0]));
    assert(is_u8(items@[1]));
    assert(is_u8(items@[2]));
    assert(is_u8(items@[3]));
    lemma_first_bad_u8_at_least(items@, 4);
    let s = Seq::new(4, |i: int| crate::json::int_of(items@[i]) as u8);
    assert(s[0] == c.red);
    assert(s[1] == c.green);
    assert(s[2] == c.blue);
    assert(s[3] == c.alpha);
}

/// What reading one block-position field of an object yields.
pub open spec fn spec_position_field(fields: Seq<(String, JsonValue)>, k: Seq<char>) -> Result<
    BlockPosition,
    DecodeError,
> {
    match spec_get(fields, k) {
        Option::None => Err(DecodeError::MissingField),
        Option::Some(v) => spec_decode_block_position(v),
    }
}

/// What decoding a wire value as a cuboid yields; the corners are examined
/// in order.
pub open spec fn spec_decode_quarter_cuboid(v: JsonValue) -> Result<QuarterCuboid, DecodeError> {
    match v {
        JsonValue::Object(fields) => match spec_position_field(fields@, "cornerOne"@) {
            Err(e) => Err(e),
            Ok(corner_one) => match spec_position_field(fields@, "cornerTwo"@) {
                Err(e) => Err(e),
                Ok(corner_two) => Ok((QuarterCuboid { corner_one, corner_two })),
            },
        },
        _ => Err(DecodeError::NotAnObject),
    }
}

/// Reads one block-position field of a decoded object.
fn position_field(fields: &Vec<(String, JsonValue)>, k: &str) -> (r: Result<
    BlockPosition,
    DecodeError,
>)
    ensures
        (match spec_position_field(fields@, k@) {
            Ok(p) => r matches Ok(a) && a == p,
            Err(e) => r matches Err(a) && a == e,
        }),
{
    match get_field(fields, k) {
        Option::None => Err(DecodeError::MissingField),
        Option::Some(v) => BlockPosition::decode(v),
    }
}

impl QuarterCuboid {
    /// Encodes this cuboid as the camelCase wire object, each corner as its
    /// three-element array.
    pub fn encode(&self) -> (r: JsonValue)
        ensures
            is_quarter_cuboid_encoding(r, *self),
    {
        let mut fields: Vec<(String, JsonValue)> = Vec::new();
        fields.push((String::from_str("cornerOne"), self.corner_one.encode()));
        fields.push((String::from_str("cornerTwo"), self.corner_two.encode()));
        proof {
            assert(fields@.len() == 2);
        }
        JsonValue::Object(fields)
    }

    /// Decodes a wire value that must be an object with the two corner
    /// arrays.
    pub fn decode(v: &JsonValue) -> (r: Result<QuarterCuboid, DecodeError>)
        ensures
            (match spec_decode_quarter_cuboid(*v) {
                Ok(c) => r matches Ok(a) && a == c,
                Err(e) => r matches Err(a) && a == e,
            }),
    {
        match v {
            JsonValue::Object(fields) => {
                let corner_one = match position_field(fields, "cornerOne") {
                    Ok(p) => p,
                    Err(e) => {
                        return Err(e);
                    },
                };
                let corner_two = match position_field(fields, "cornerTwo") {
                    Ok(p) => p,
                    Err(e) => {
                        return Err(e);
                    },
                };
                Ok(QuarterCuboid { corner_one, corner_two })
            },
            _ => Err(DecodeError::NotAnObject),
        }
    }
}

/// Whether `v` is the wire encoding of the cuboid, corners in canonical
/// order.
pub open spec fn is_quarter_cuboid_encoding(v: JsonValue, c: QuarterCuboid) -> bool {
    &&& v matches JsonValue::Object(fields)
    &&& fields@.len() == 2
    &&& fields@[0].0@ == "cornerOne"@
    &&& is_block_position_encoding(fields@[0].1, c.corner_one)
    &&& fields@[1].0@ == "cornerTwo"@
    &&& is_block_position_encoding(fields@[1].1, c.corner_two)
}

/// Law: decoding any encoding of a cuboid yields that cuboid back.
pub proof fn lemma_quarter_cuboid_round_trip(v: JsonValue, c: QuarterCuboid)
    requires
        is_quarter_cuboid_encoding(v, c),
    ensures
        spec_decode_quarter_cuboid(v) == Ok::<QuarterCuboid, DecodeError>(c),
{
    reveal_strlit("cornerOne");
    reveal_strlit("cornerTwo");
    assert("cornerOne"@.len() == 9);
    assert("cornerTwo"@.len() == 9);
    assert("cornerOne"@[6] == 'O');
    assert("cornerTwo"@[6] == 'T');
    let f = v->Object_0@;
    let f1 = f.drop_first();
    assert(f1[0] == f[1]);
    assert(spec_get(f, "cornerOne"@) == Some(f[0].1));
    assert(spec_get(f1, "cornerTwo"@) == Some(f[1].1));
    assert(spec_get(f, "cornerTwo"@) == Some(f[1].1));
    lemma_block_position_round_trip(f[0].1, c.corner_one);
    lemma_block_position_round_trip(f[1].1, c.corner_two);
}

/// The wire name of a quarter kind.
pub open spec fn spec_quarter_kind_text(k: QuarterKind) -> Seq<char> {
    match k {
        QuarterKind::Apartment => "APARTMENT"@,
        QuarterKind::Inn => "INN"@,
        QuarterKind::Station => "STATION"@,
    }
}

/// Whether a piece of text names a quarter kind.
pub open spec fn spec_is_quarter_kind_text(t: Seq<char>) -> bool {
    t == "APARTMENT"@ || t == "INN"@ || t == "STATION"@
}

/// The quarter kind a wire name denotes; meaningful only for valid names.
pub open spec fn spec_quarter_kind_of(t: Seq<char>) -> QuarterKind {
    if t == "APARTMENT"@ {
        QuarterKind::Apartment
    } else if t == "INN"@ {
        QuarterKind::Inn
    } else {
        QuarterKind::Station
    }
}

/// Decodes the wire name of a quarter kind.
pub fn decode_quarter_kind(s: &str) -> (r: Result<QuarterKind, DecodeError>)
    ensures
        r is Ok <==> spec_is_quarter_kind_text(s@),
        (r matches Ok(k) ==> spec_quarter_kind_text(k) == s@ && k == spec_quarter_kind_of(s@)),
        (r matches Err(e) ==> e == DecodeError::UnknownVariant),
{
    if str_eq(s, "APARTMENT") {
        Ok(QuarterKind::Apartment)
    } else if str_eq(s, "INN") {
        Ok(QuarterKind::Inn)
    } else if str_eq(s, "STATION") {
        Ok(QuarterKind::Station)
    } else {
        Err(DecodeError::UnknownVariant)
    }
}

/// What decoding the quarter's timestamp object yields; an unclaimed
/// quarter reports a claim time of null.
pub open spec fn spec_decode_quarter_timestamps(v: JsonValue) -> Result<
    QuarterTimestamps,
    DecodeError,
> {
    match v {
        JsonValue::Object(fields) => match spec_i64_field(fields@, "registered"@) {
            Err(e) => Err(e),
            Ok(registered) => match spec_opt_i64_field(fields@, "claimedAt"@) {
                Err(e) => Err(e),
                Ok(claimed_at) => Ok((QuarterTimestamps { registered, claimed_at })),
            },
        },
        _ => Err(DecodeError::NotAnObject),
    }
}

impl QuarterTimestamps {
    /// Decodes the quarter's timestamp object.
    pub fn decode(v: &JsonValue) -> (r: Result<QuarterTimestamps, DecodeError>)
        ensures
            (match spec_decode_quarter_timestamps(*v) {
                Ok(t) => r matches Ok(a) && a == t,
                Err(e) => r matches Err(a) && a == e,
            }),
    {
        match v {
            JsonValue::Object(fields) => {
                let registered = match i64_field(fields, "registered") {
                    Ok(n) => n,
                    Err(e) => {
                        return Err(e);
                    },
                };
                let claimed_at = match opt_i64_field(fields, "claimedAt") {
                    Ok(n) => n,
                    Err(e) => {
                        return Err(e);
                    },
                };
                Ok(QuarterTimestamps { registered, claimed_at })
            },
            _ => Err(DecodeError::NotAnObject),
        }
    }
}

/// What decoding the quarter's flag object yields.
pub open spec fn spec_decode_quarter_status(v: JsonValue) -> Result<QuarterStatus, DecodeError> {
    match v {
        JsonValue::Object(fields) => match spec_bool_field(fields@, "isEmbassy"@) {
            Err(e) => Err(e),
            Ok(is_embassy) => match spec_bool_field(fields@, "isForSale"@) {
                Err(e) => Err(e),
                Ok(is_for_sale) => Ok((QuarterStatus { is_embassy, is_for_sale })),
            },
        },
        _ => Err(DecodeError::NotAnObject),
    }
}

impl QuarterStatus {
    /// Decodes the quarter's flag object.
    pub fn decode(v: &JsonValue) -> (r: Result<QuarterStatus, DecodeError>)
        ensures
            (match spec_decode_quarter_status(*v) {
                Ok(t) => r matches Ok(a) && a == t,
                Err(e) => r matches Err(a) && a == e,
            }),
    {
        match v {
            JsonValue::Object(fields) => {
                let is_embassy = match bool_field(fields, "isEmbassy") {
                    Ok(b) => b,
                    Err(e) => {
                        return Err(e);
                    },
                };
                let is_for_sale = match bool_field(fields, "isForSale") {
                    Ok(b) => b,
                    Err(e) => {
                        return Err(e);
                    },
                };
                Ok(QuarterStatus { is_embassy, is_for_sale })
            },
            _ => Err(DecodeError::NotAnObject),
        }
    }
}

} // verus!
