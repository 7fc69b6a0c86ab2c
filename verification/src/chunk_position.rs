//! A chunk position, carried on the wire as a bare two-element array.
//!
//! As with block positions, the fixed array length is part of the wire
//! contract: decoding rejects both short arrays and trailing extras.

use vstd::prelude::*;

use crate::json::{
    decode_i32_array, is_i32, lemma_first_bad_i32_at_least, spec_decode_i32_array, DecodeError,
    JsonValue,
};

verus! {

/// A position of a 16 x 16 chunk of the world grid.
#[derive(Debug, Clone, Copy, PartialEq, Eq, Structural)]
pub struct ChunkPosition {
    pub x: i32,
    pub y: i32,
}

/// Whether `v` is the wire encoding of `p`: the array `[x, y]`.
pub open spec fn is_chunk_position_encoding(v: JsonValue, p: ChunkPosition) -> bool {
    v matches JsonValue::Array(items) && items@ == seq![
        JsonValue::Int(p.x as i64),
        JsonValue::Int(p.y as i64),
    ]
}

/// What decoding a wire value as a chunk position yields.
pub open spec fn spec_decode_chunk_position(v: JsonValue) -> Result<ChunkPosition, DecodeError> {
    match spec_decode_i32_array(v, 2) {
        Ok(s) => Ok((ChunkPosition { x: s[0], y: s[1] })),
        Err(e) => Err(e),
    }
}

impl ChunkPosition {
    /// Encodes this position as the two-element wire array.
    pub fn encode(&self) -> (r: JsonValue)
        ensures
            is_chunk_position_encoding(r, *self),
    {
        let mut items: Vec<JsonValue> = Vec::new();
        items.push(JsonValue::Int(self.x as i64));
        items.push(JsonValue::Int(self.y as i64));
        proof {
            assert(items@ =~= seq![
                JsonValue::Int(self.x as i64),
                JsonValue::Int(self.y as i64),
            ]);
        }
        JsonValue::Array(items)
    }

    /// Decodes a wire value that must be an array of exactly two integers.
    pub fn decode(v: &JsonValue) -> (r: Result<ChunkPosition, DecodeError>)
        ensures
            (match spec_decode_chunk_position(*v) {
                Ok(p) => r matches Ok(q) && q == p,
                Err(e) => r matches Err(a) && a == e,
            }),
    {
        match decode_i32_array(v, 2) {
            Ok(vals) => Ok(ChunkPosition { x: vals[0], y: vals[1] }),
            Err(e) => Err(e),
        }
    }
}

/// Law: decoding any encoding of a chunk position yields that position back.
pub proof fn lemma_chunk_position_round_trip(v: JsonValue, p: ChunkPosition)
    requires
        is_chunk_position_encoding(v, p),
    ensures
        spec_decode_chunk_position(v) == Ok::<ChunkPosition, DecodeError>(p),
{
    let items = v->Array_0;
    assert(is_i32(items@[0]));
    assert(is_i32(items@[1]));
    lemma_first_bad_i32_at_least(items@, 2);
    let s = Seq::new(2, |i: int| crate::json::int_of(items@[i]) as i32);
    assert(s[0] == p.x);
    assert(s[1] == p.y);
}

} // verus!
