//! A block position, carried on the wire as a bare three-element array.
//!
//! The array shape is a wire-compatibility contract with the API: encoding
//! always produces exactly three integers, and decoding rejects arrays of any
//! other length.

use vstd::prelude::*;

use crate::json::{
    decode_i32_array, is_i32, lemma_first_bad_i32_at_least, spec_decode_i32_array, DecodeError,
    JsonValue,
};

verus! {

/// A position of a single block in the world.
#[derive(Debug, Clone, Copy, PartialEq, Eq, Structural)]
pub struct BlockPosition {
    pub x: i32,
    pub y: i32,
    pub z: i32,
}

/// Whether `v` is the wire encoding of `p`: the array `[x, y, z]`.
pub open spec fn is_block_position_encoding(v: JsonValue, p: BlockPosition) -> bool {
    v matches JsonValue::Array(items) && items@ == seq![
        JsonValue::Int(p.x as i64),
        JsonValue::Int(p.y as i64),
        JsonValue::Int(p.z as i64),
    ]
}

/// What decoding a wire value as a block position yields.
pub open spec fn spec_decode_block_position(v: JsonValue) -> Result<BlockPosition, DecodeError> {
    match spec_decode_i32_array(v, 3) {
        Ok(s) => Ok((BlockPosition { x: s[0], y: s[1], z: s[2] })),
        Err(e) => Err(e),
    }
}

impl BlockPosition {
    /// Encodes this position as the three-element wire array.
    pub fn encode(&self) -> (r: JsonValue)
        ensures
            is_block_position_encoding(r, *self),
    {
        let mut items: Vec<JsonValue> = Vec::new();
        items.push(JsonValue::Int(self.x as i64));
        items.push(JsonValue::Int(self.y as i64));
        items.push(JsonValue::Int(self.z as i64));
        proof {
            assert(items@ =~= seq![
                JsonValue::Int(self.x as i64),
                JsonValue::Int(self.y as i64),
                JsonValue::Int(self.z as i64),
            ]);
        }
        JsonValue::Array(items)
    }

    /// Decodes a wire value that must be an array of exactly three integers.
    pub fn decode(v: &JsonValue) -> (r: Result<BlockPosition, DecodeError>)
        ensures
            (match spec_decode_block_position(*v) {
                Ok(p) => r matches Ok(q) && q == p,
                Err(e) => r matches Err(a) && a == e,
            }),
    {
        match decode_i32_array(v, 3) {
            Ok(vals) => Ok(BlockPosition { x: vals[0], y: vals[1], z: vals[2] }),
            Err(e) => Err(e),
        }
    }
}

/// Law: decoding any encoding of a block position yields that position back.
pub proof fn lemma_block_position_round_trip(v: JsonValue, p: BlockPosition)
    requires
        is_block_position_encoding(v, p),
    ensures
        spec_decode_block_position(v) == Ok::<BlockPosition, DecodeError>(p),
{
    let items = v->Array_0;
    assert(is_i32(items@[0]));
    assert(is_i32(items@[1]));
    assert(is_i32(items@[2]));
    lemma_first_bad_i32_at_least(items@, 3);
    let s = Seq::new(3, |i: int| crate::json::int_of(items@[i]) as i32);
    assert(s[0] == p.x);
    assert(s[1] == p.y);
    assert(s[2] == p.z);
}

} // verus!
