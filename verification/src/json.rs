//! A small model of JSON values, and checked decoders for the compact
//! fixed-length array encodings the API uses.
//!
//! The transport layer parses response text and hands values of this shape in;
//! request payloads are assembled as values of this shape and handed out.
//! Numbers that are not 64-bit integers are represented by `OtherNumber`, so
//! every integer-expecting decoder rejects them.

use vstd::prelude::*;

verus! {

/// A JSON value, as far as the wire formats in this crate need to see one.
#[derive(Debug)]
pub enum JsonValue {
    Null,
    Bool(bool),
    Int(i64),
    /// A number that does not fit a 64-bit integer (for instance a fraction).
    OtherNumber,
    Str(String),
    Array(Vec<JsonValue>),
    Object(Vec<(String, JsonValue)>),
}

/// Why a decode of a wire value failed.
#[derive(Debug, Clone, Copy, PartialEq, Eq, Structural)]
pub enum DecodeError {
    NotAnArray,
    NotAnObject,
    NotAString,
    /// The element at this index is not an integer.
    NotAnInt(usize),
    /// The element at this index is not a boolean.
    NotABool(usize),
    /// The element at this index is an integer outside the expected range.
    OutOfRange(usize),
    /// A fixed-length array had the wrong length. For a short array the index
    /// is the first missing one; for a long array it is one past the expected
    /// length.
    InvalidLength(usize),
    MissingField,
    WrongFieldType,
    /// A field held an integer outside the expected range.
    ValueOutOfRange,
    BadUuid,
    UnknownVariant,
}

/// The payload of an `Int` value, and 0 for every other variant.
pub open spec fn int_of(v: JsonValue) -> i64 {
    match v {
        JsonValue::Int(n) => n,
        _ => 0,
    }
}

/// The payload of a `Bool` value, and false for every other variant.
pub open spec fn bool_of(v: JsonValue) -> bool {
    match v {
        JsonValue::Bool(b) => b,
        _ => false,
    }
}

/// Whether a value is an integer that fits `i32`.
pub open spec fn is_i32(v: JsonValue) -> bool {
    v is Int && i32::MIN <= int_of(v) <= i32::MAX
}

/// Whether a value is an integer that fits `u8`.
pub open spec fn is_u8(v: JsonValue) -> bool {
    v is Int && 0 <= int_of(v) <= u8::MAX
}

/// Whether a value is a boolean.
pub open spec fn is_bool(v: JsonValue) -> bool {
    v is Bool
}

/// The least index whose element is not an `i32`, or the length when every
/// element is one.
pub open spec fn first_bad_i32(items: Seq<JsonValue>) -> int
    decreases items.len(),
{
    if items.len() == 0 {
        0
    } else if !is_i32(items[0]) {
        0
    } else {
        1 + first_bad_i32(items.drop_first())
    }
}

/// The least index whose element is not a byte, or the length when every
/// element is one.
pub open spec fn first_bad_u8(items: Seq<JsonValue>) -> int
    decreases items.len(),
{
    if items.len() == 0 {
        0
    } else if !is_u8(items[0]) {
        0
    } else {
        1 + first_bad_u8(items.drop_first())
    }
}

/// The least index whose element is not a boolean, or the length when every
/// element is one.
pub open spec fn first_bad_bool(items: Seq<JsonValue>) -> int
    decreases items.len(),
{
    if items.len() == 0 {
        0
    } else if !is_bool(items[0]) {
        0
    } else {
        1 + first_bad_bool(items.drop_first())
    }
}

pub proof fn lemma_first_bad_i32_is(items: Seq<JsonValue>, i: int)
    requires
        0 <= i <= items.len(),
        forall|j: int| 0 <= j < i ==> is_i32(items[j]),
        i < items.len() ==> !is_i32(items[i]),
    ensures
        first_bad_i32(items) == i,
    decreases items.len(),
{
    if items.len() == 0 || i == 0 {
    } else {
        assert(forall|j: int| 0 <= j < i - 1 ==> items.drop_first()[j] == items[j + 1]);
        if i - 1 < items.drop_first().len() {
            assert(items.drop_first()[i - 1] == items[i]);
        }
        lemma_first_bad_i32_is(items.drop_first(), i - 1);
    }
}

pub proof fn lemma_first_bad_i32_at_least(items: Seq<JsonValue>, i: int)
    requires
        0 <= i <= items.len(),
        forall|j: int| 0 <= j < i ==> is_i32(items[j]),
    ensures
        first_bad_i32(items) >= i,
    decreases items.len(),
{
    if items.len() == 0 || i == 0 {
        if items.len() > 0 && is_i32(items[0]) {
            lemma_first_bad_i32_at_least(items.drop_first(), 0);
        }
    } else {
        assert(forall|j: int| 0 <= j < i - 1 ==> items.drop_first()[j] == items[j + 1]);
        lemma_first_bad_i32_at_least(items.drop_first(), i - 1);
    }
}

pub proof fn lemma_first_bad_u8_is(items: Seq<JsonValue>, i: int)
    requires
        0 <= i <= items.len(),
        forall|j: int| 0 <= j < i ==> is_u8(items[j]),
        i < items.len() ==> !is_u8(items[i]),
    ensures
        first_bad_u8(items) == i,
    decreases items.len(),
{
    if items.len() == 0 || i == 0 {
    } else {
        assert(forall|j: int| 0 <= j < i - 1 ==> items.drop_first()[j] == items[j + 1]);
        if i - 1 < items.drop_first().len() {
            assert(items.drop_first()[i - 1] == items[i]);
        }
        lemma_first_bad_u8_is(items.drop_first(), i - 1);
    }
}

pub proof fn lemma_first_bad_u8_at_least(items: Seq<JsonValue>, i: int)
    requires
        0 <= i <= items.len(),
        forall|j: int| 0 <= j < i ==> is_u8(items[j]),
    ensures
        first_bad_u8(items) >= i,
    decreases items.len(),
{
    if items.len() == 0 || i == 0 {
        if items.len() > 0 && is_u8(items[0]) {
            lemma_first_bad_u8_at_least(items.drop_first(), 0);
        }
    } else {
        assert(forall|j: int| 0 <= j < i - 1 ==> items.drop_first()[j] == items[j + 1]);
        lemma_first_bad_u8_at_least(items.drop_first(), i - 1);
    }
}

pub proof fn lemma_first_bad_bool_is(items: Seq<JsonValue>, i: int)
    requires
        0 <= i <= items.len(),
        forall|j: int| 0 <= j < i ==> is_bool(items[j]),
        i < items.len() ==> !is_bool(items[i]),
    ensures
        first_bad_bool(items) == i,
    decreases items.len(),
{
    if items.len() == 0 || i == 0 {
    } else {
        assert(forall|j: int| 0 <= j < i - 1 ==> items.drop_first()[j] == items[j + 1]);
        if i - 1 < items.drop_first().len() {
            assert(items.drop_first()[i - 1] == items[i]);
        }
        lemma_first_bad_bool_is(items.drop_first(), i - 1);
    }
}

pub proof fn lemma_first_bad_bool_at_least(items: Seq<JsonValue>, i: int)
    requires
        0 <= i <= items.len(),
        forall|j: int| 0 <= j < i ==> is_bool(items[j]),
    ensures
        first_bad_bool(items) >= i,
    decreases items.len(),
{
    if items.len() == 0 || i == 0 {
        if items.len() > 0 && is_bool(items[0]) {
            lemma_first_bad_bool_at_least(items.drop_first(), 0);
        }
    } else {
        assert(forall|j: int| 0 <= j < i - 1 ==> items.drop_first()[j] == items[j + 1]);
        lemma_first_bad_bool_at_least(items.drop_first(), i - 1);
    }
}

/// What decoding a fixed-length array of `i32` elements yields: the elements
/// in order, or the error the first offending position produces. Elements are
/// examined in order, so a wrong element before a length defect wins.
pub open spec fn spec_decode_i32_items(items: Seq<JsonValue>, n: nat) -> Result<
    Seq<i32>,
    DecodeError,
> {
    let fb = first_bad_i32(items);
    if fb < items.len() && fb < n {
        if items[fb] is Int {
            Err(DecodeError::OutOfRange(fb as usize))
        } else {
            Err(DecodeError::NotAnInt(fb as usize))
        }
    } else if items.len() < n {
        Err(DecodeError::InvalidLength(items.len() as usize))
    } else if items.len() > n {
        Err(DecodeError::InvalidLength((n + 1) as usize))
    } else {
        Ok(Seq::new(n, |i: int| int_of(items[i]) as i32))
    }
}

pub open spec fn spec_decode_i32_array(v: JsonValue, n: nat) -> Result<Seq<i32>, DecodeError> {
    match v {
        JsonValue::Array(items) => spec_decode_i32_items(items@, n),
        _ => Err(DecodeError::NotAnArray),
    }
}

/// Like `spec_decode_i32_items` for arrays of bytes.
pub open spec fn spec_decode_u8_items(items: Seq<JsonValue>, n: nat) -> Result<
    Seq<u8>,
    DecodeError,
> {
    let fb = first_bad_u8(items);
    if fb < items.len() && fb < n {
        if items[fb] is Int {
            Err(DecodeError::OutOfRange(fb as usize))
        } else {
            Err(DecodeError::NotAnInt(fb as usize))
        }
    } else if items.len() < n {
        Err(DecodeError::InvalidLength(items.len() as usize))
    } else if items.len() > n {
        Err(DecodeError::InvalidLength((n + 1) as usize))
    } else {
        Ok(Seq::new(n, |i: int| int_of(items[i]) as u8))
    }
}

pub open spec fn spec_decode_u8_array(v: JsonValue, n: nat) -> Result<Seq<u8>, DecodeError> {
    match v {
        JsonValue::Array(items) => spec_decode_u8_items(items@, n),
        _ => Err(DecodeError::NotAnArray),
    }
}

/// Like `spec_decode_i32_items` for arrays of booleans.
pub open spec fn spec_decode_bool_items(items: Seq<JsonValue>, n: nat) -> Result<
    Seq<bool>,
    DecodeError,
> {
    let fb = first_bad_bool(items);
    if fb < items.len() && fb < n {
        Err(DecodeError::NotABool(fb as usize))
    } else if items.len() < n {
        Err(DecodeError::InvalidLength(items.len() as usize))
    } else if items.len() > n {
        Err(DecodeError::InvalidLength((n + 1) as usize))
    } else {
        Ok(Seq::new(n, |i: int| bool_of(items[i])))
    }
}

pub open spec fn spec_decode_bool_array(v: JsonValue, n: nat) -> Result<Seq<bool>, DecodeError> {
    match v {
        JsonValue::Array(items) => spec_decode_bool_items(items@, n),
        _ => Err(DecodeError::NotAnArray),
    }
}

/// Decodes a JSON value that must be an array of exactly `n` integers, each
/// fitting `i32`.
pub fn decode_i32_array(v: &JsonValue, n: usize) -> (r: Result<Vec<i32>, DecodeError>)
    requires
        n < usize::MAX,
    ensures
        (match spec_decode_i32_array(*v, n as nat) {
            Ok(s) => r matches Ok(out) && out@ == s,
            Err(e) => r matches Err(a) && a == e,
        }),
{
    match v {
        JsonValue::Array(items) => {
            let len = items.len();
            let lim = if len < n {
                len
            } else {
                n
            };
            let mut out: Vec<i32> = Vec::new();
            let mut i: usize = 0;
            while i < lim
                invariant
                    *v == JsonValue::Array(*items),
                    i <= lim,
                    lim <= len,
                    lim <= n,
                    len == items@.len(),
                    lim == if len < n {
                        len as int
                    } else {
                        n as int
                    },
                    out@.len() == i,
                    forall|j: int| 0 <= j < i ==> is_i32(items@[j]),
                    forall|j: int| 0 <= j < i ==> out@[j] == int_of(items@[j]) as i32,
                decreases lim - i,
            {
                match &items[i] {
                    JsonValue::Int(x) => {
                        let x = *x;
                        if x < i32::MIN as i64 || x > i32::MAX as i64 {
                            proof {
                                lemma_first_bad_i32_is(items@, i as int);
                            }
                            return Err(DecodeError::OutOfRange(i));
                        }
                        out.push(x as i32);
                    },
                    _ => {
                        proof {
                            lemma_first_bad_i32_is(items@, i as int);
                        }
                        return Err(DecodeError::NotAnInt(i));
                    },
                }
                i += 1;
            }
            if len < n {
                proof {
                    lemma_first_bad_i32_is(items@, len as int);
                }
                return Err(DecodeError::InvalidLength(len));
            }
            proof {
                lemma_first_bad_i32_at_least(items@, lim as int);
            }
            if len > n {
                return Err(DecodeError::InvalidLength(n + 1));
            }
            proof {
                assert(out@ =~= Seq::new(n as nat, |j: int| int_of(items@[j]) as i32));
            }
            Ok(out)
        },
        _ => Err(DecodeError::NotAnArray),
    }
}

/// Decodes a JSON value that must be an array of exactly `n` integers, each
/// fitting `u8`.
pub fn decode_u8_array(v: &JsonValue, n: usize) -> (r: Result<Vec<u8>, DecodeError>)
    requires
        n < usize::MAX,
    ensures
        (match spec_decode_u8_array(*v, n as nat) {
            Ok(s) => r matches Ok(out) && out@ == s,
            Err(e) => r matches Err(a) && a == e,
        }),
{
    match v {
        JsonValue::Array(items) => {
            let len = items.len();
            let lim = if len < n {
                len
            } else {
                n
            };
            let mut out: Vec<u8> = Vec::new();
            let mut i: usize = 0;
            while i < lim
                invariant
                    *v == JsonValue::Array(*items),
                    i <= lim,
                    lim <= len,
                    lim <= n,
                    len == items@.len(),
                    lim == if len < n {
                        len as int
                    } else {
                        n as int
                    },
                    out@.len() == i,
                    forall|j: int| 0 <= j < i ==> is_u8(items@[j]),
                    forall|j: int| 0 <= j < i ==> out@[j] == int_of(items@[j]) as u8,
                decreases lim - i,
            {
                match &items[i] {
                    JsonValue::Int(x) => {
                        let x = *x;
                        if x < 0 || x > u8::MAX as i64 {
                            proof {
                                lemma_first_bad_u8_is(items@, i as int);
                            }
                            return Err(DecodeError::OutOfRange(i));
                        }
                        out.push(x as u8);
                    },
                    _ => {
                        proof {
                            lemma_first_bad_u8_is(items@, i as int);
                        }
                        return Err(DecodeError::NotAnInt(i));
                    },
                }
                i += 1;
            }
            if len < n {
                proof {
                    lemma_first_bad_u8_is(items@, len as int);
                }
                return Err(DecodeError::InvalidLength(len));
            }
            proof {
                lemma_first_bad_u8_at_least(items@, lim as int);
            }
            if len > n {
                return Err(DecodeError::InvalidLength(n + 1));
            }
            proof {
                assert(out@ =~= Seq::new(n as nat, |j: int| int_of(items@[j]) as u8));
            }
            Ok(out)
        },
        _ => Err(DecodeError::NotAnArray),
    }
}

/// Decodes a JSON value that must be an array of exactly `n` booleans.
pub fn decode_bool_array(v: &JsonValue, n: usize) -> (r: Result<Vec<bool>, DecodeError>)
    requires
        n < usize::MAX,
    ensures
        (match spec_decode_bool_array(*v, n as nat) {
            Ok(s) => r matches Ok(out) && out@ == s,
            Err(e) => r matches Err(a) && a == e,
        }),
{
    match v {
        JsonValue::Array(items) => {
            let len = items.len();
            let lim = if len < n {
                len
            } else {
                n
            };
            let mut out: Vec<bool> = Vec::new();
            let mut i: usize = 0;
            while i < lim
                invariant
                    *v == JsonValue::Array(*items),
                    i <= lim,
                    lim <= len,
                    lim <= n,
                    len == items@.len(),
                    lim == if len < n {
                        len as int
                    } else {
                        n as int
                    },
                    out@.len() == i,
                    forall|j: int| 0 <= j < i ==> is_bool(items@[j]),
                    forall|j: int| 0 <= j < i ==> out@[j] == bool_of(items@[j]),
                decreases lim - i,
            {
                match &items[i] {
                    JsonValue::Bool(b) => {
                        out.push(*b);
                    },
                    _ => {
                        proof {
                            lemma_first_bad_bool_is(items@, i as int);
                        }
                        return Err(DecodeError::NotABool(i));
                    },
                }
                i += 1;
            }
            if len < n {
                proof {
                    lemma_first_bad_bool_is(items@, len as int);
                }
                return Err(DecodeError::InvalidLength(len));
            }
            proof {
                lemma_first_bad_bool_at_least(items@, lim as int);
            }
            if len > n {
                return Err(DecodeError::InvalidLength(n + 1));
            }
            proof {
                assert(out@ =~= Seq::new(n as nat, |j: int| bool_of(items@[j])));
            }
            Ok(out)
        },
        _ => Err(DecodeError::NotAnArray),
    }
}

/// Law: an array shorter than a codec expects, with every present element
/// well-typed, decodes to a length error naming the first missing index.
pub proof fn lemma_i32_array_too_short(items: Seq<JsonValue>, n: nat)
    requires
        items.len() < n,
        forall|j: int| 0 <= j < items.len() ==> is_i32(items[j]),
    ensures
        spec_decode_i32_items(items, n) == Err::<Seq<i32>, DecodeError>(
            DecodeError::InvalidLength(items.len() as usize),
        ),
{
    lemma_first_bad_i32_at_least(items, items.len() as int);
}

/// Law: an array longer than a codec expects, with the expected prefix
/// well-typed, decodes to a length error one past the expected length.
pub proof fn lemma_i32_array_too_long(items: Seq<JsonValue>, n: nat)
    requires
        n < usize::MAX,
        items.len() > n,
        forall|j: int| 0 <= j < n ==> is_i32(items[j]),
    ensures
        spec_decode_i32_items(items, n) == Err::<Seq<i32>, DecodeError>(
            DecodeError::InvalidLength((n + 1) as usize),
        ),
{
    lemma_first_bad_i32_at_least(items, n as int);
}

/// Law: as `lemma_i32_array_too_short`, for arrays of bytes.
pub proof fn lemma_u8_array_too_short(items: Seq<JsonValue>, n: nat)
    requires
        items.len() < n,
        forall|j: int| 0 <= j < items.len() ==> is_u8(items[j]),
    ensures
        spec_decode_u8_items(items, n) == Err::<Seq<u8>, DecodeError>(
            DecodeError::InvalidLength(items.len() as usize),
        ),
{
    lemma_first_bad_u8_at_least(items, items.len() as int);
}

/// Law: as `lemma_i32_array_too_long`, for arrays of bytes.
pub proof fn lemma_u8_array_too_long(items: Seq<JsonValue>, n: nat)
    requires
        n < usize::MAX,
        items.len() > n,
        forall|j: int| 0 <= j < n ==> is_u8(items[j]),
    ensures
        spec_decode_u8_items(items, n) == Err::<Seq<u8>, DecodeError>(
            DecodeError::InvalidLength((n + 1) as usize),
        ),
{
    lemma_first_bad_u8_at_least(items, n as int);
}

/// Law: as `lemma_i32_array_too_short`, for arrays of booleans.
pub proof fn lemma_bool_array_too_short(items: Seq<JsonValue>, n: nat)
    requires
        items.len() < n,
        forall|j: int| 0 <= j < items.len() ==> is_bool(items[j]),
    ensures
        spec_decode_bool_items(items, n) == Err::<Seq<bool>, DecodeError>(
            DecodeError::InvalidLength(items.len() as usize),
        ),
{
    lemma_first_bad_bool_at_least(items, items.len() as int);
}

/// Law: as `lemma_i32_array_too_long`, for arrays of booleans.
pub proof fn lemma_bool_array_too_long(items: Seq<JsonValue>, n: nat)
    requires
        n < usize::MAX,
        items.len() > n,
        forall|j: int| 0 <= j < n ==> is_bool(items[j]),
    ensures
        spec_decode_bool_items(items, n) == Err::<Seq<bool>, DecodeError>(
            DecodeError::InvalidLength((n + 1) as usize),
        ),
{
    lemma_first_bad_bool_at_least(items, n as int);
}

/// Compares two string slices character by character.
pub fn str_eq(a: &str, b: &str) -> (r: bool)
    ensures
        r == (a@ == b@),
{
    let la = a.unicode_len();
    let lb = b.unicode_len();
    if la != lb {
        return false;
    }
    let mut i: usize = 0;
    while i < la
        invariant
            i <= la,
            la == a@.len(),
            lb == b@.len(),
            la == lb,
            forall|j: int| 0 <= j < i ==> a@[j] == b@[j],
        decreases la - i,
    {
        if a.get_char(i) != b.get_char(i) {
            return false;
        }
        i += 1;
    }
    proof {
        assert(a@ =~= b@);
    }
    true
}

/// The value under the first field with this key, if any.
pub open spec fn spec_get(fields: Seq<(String, JsonValue)>, k: Seq<char>) -> Option<JsonValue>
    decreases fields.len(),
{
    if fields.len() == 0 {
        None
    } else if fields[0].0@ == k {
        Some(fields[0].1)
    } else {
        spec_get(fields.drop_first(), k)
    }
}

/// Looks a key up among the fields of a decoded JSON object.
pub fn get_field<'a>(fields: &'a Vec<(String, JsonValue)>, k: &str) -> (r: Option<&'a JsonValue>)
    ensures
        (match r {
            Some(v) => spec_get(fields@, k@) == Some(*v),
            None => spec_get(fields@, k@) is None,
        }),
{
    proof {
        assert(fields@.skip(0) =~= fields@);
    }
    let mut i: usize = 0;
    while i < fields.len()
        invariant
            i <= fields@.len(),
            spec_get(fields@, k@) == spec_get(fields@.skip(i as int), k@),
        decreases fields@.len() - i,
    {
        let pair = &fields[i];
        proof {
            assert(fields@.skip(i as int)[0] == fields@[i as int]);
        }
        if str_eq(pair.0.as_str(), k) {
            return Some(&pair.1);
        }
        proof {
            assert(fields@.skip(i as int).drop_first() =~= fields@.skip(i as int + 1));
        }
        i += 1;
    }
    None
}

/// What reading one boolean field of an object yields.
pub open spec fn spec_bool_field(fields: Seq<(String, JsonValue)>, k: Seq<char>) -> Result<
    bool,
    DecodeError,
> {
    match spec_get(fields, k) {
        Option::None => Err(DecodeError::MissingField),
        Option::Some(v) => match v {
            JsonValue::Bool(b) => Ok(b),
            _ => Err(DecodeError::WrongFieldType),
        },
    }
}

/// Reads one boolean field of a decoded object.
pub fn bool_field(fields: &Vec<(String, JsonValue)>, k: &str) -> (r: Result<bool, DecodeError>)
    ensures
        (match spec_bool_field(fields@, k@) {
            Ok(b) => r matches Ok(a) && a == b,
            Err(e) => r matches Err(a) && a == e,
        }),
{
    match get_field(fields, k) {
        Option::None => Err(DecodeError::MissingField),
        Option::Some(v) => match v {
            JsonValue::Bool(b) => Ok(*b),
            _ => Err(DecodeError::WrongFieldType),
        },
    }
}

/// What reading one integer field of an object yields.
pub open spec fn spec_i64_field(fields: Seq<(String, JsonValue)>, k: Seq<char>) -> Result<
    i64,
    DecodeError,
> {
    match spec_get(fields, k) {
        Option::None => Err(DecodeError::MissingField),
        Option::Some(v) => match v {
            JsonValue::Int(n) => Ok(n),
            _ => Err(DecodeError::WrongFieldType),
        },
    }
}

/// Reads one integer field of a decoded object.
pub fn i64_field(fields: &Vec<(String, JsonValue)>, k: &str) -> (r: Result<i64, DecodeError>)
    ensures
        (match spec_i64_field(fields@, k@) {
            Ok(n) => r matches Ok(a) && a == n,
            Err(e) => r matches Err(a) && a == e,
        }),
{
    match get_field(fields, k) {
        Option::None => Err(DecodeError::MissingField),
        Option::Some(v) => match v {
            JsonValue::Int(n) => Ok(*n),
            _ => Err(DecodeError::WrongFieldType),
        },
    }
}

/// What reading one integer field that must fit `i32` yields.
pub open spec fn spec_i32_field(fields: Seq<(String, JsonValue)>, k: Seq<char>) -> Result<
    i32,
    DecodeError,
> {
    match spec_i64_field(fields, k) {
        Ok(n) => if i32::MIN <= n <= i32::MAX {
            Ok(n as i32)
        } else {
            Err(DecodeError::ValueOutOfRange)
        },
        Err(e) => Err(e),
    }
}

/// Reads one integer field of a decoded object, which must fit `i32`.
pub fn i32_field(fields: &Vec<(String, JsonValue)>, k: &str) -> (r: Result<i32, DecodeError>)
    ensures
        (match spec_i32_field(fields@, k@) {
            Ok(n) => r matches Ok(a) && a == n,
            Err(e) => r matches Err(a) && a == e,
        }),
{
    match i64_field(fields, k) {
        Ok(n) => if i32::MIN as i64 <= n && n <= i32::MAX as i64 {
            Ok(n as i32)
        } else {
            Err(DecodeError::ValueOutOfRange)
        },
        Err(e) => Err(e),
    }
}

/// What reading one text field of an object yields.
pub open spec fn spec_str_field(fields: Seq<(String, JsonValue)>, k: Seq<char>) -> Result<
    String,
    DecodeError,
> {
    match spec_get(fields, k) {
        Option::None => Err(DecodeError::MissingField),
        Option::Some(v) => match v {
            JsonValue::Str(s) => Ok(s),
            _ => Err(DecodeError::WrongFieldType),
        },
    }
}

/// Reads one text field of a decoded object.
pub fn str_field(fields: &Vec<(String, JsonValue)>, k: &str) -> (r: Result<String, DecodeError>)
    ensures
        (match spec_str_field(fields@, k@) {
            Ok(s) => r matches Ok(a) && a == s,
            Err(e) => r matches Err(a) && a == e,
        }),
{
    match get_field(fields, k) {
        Option::None => Err(DecodeError::MissingField),
        Option::Some(v) => match v {
            JsonValue::Str(s) => Ok(s.clone()),
            _ => Err(DecodeError::WrongFieldType),
        },
    }
}

/// What reading one integer-or-null field of an object yields; a JSON null
/// stands for an absent value.
pub open spec fn spec_opt_i64_field(fields: Seq<(String, JsonValue)>, k: Seq<char>) -> Result<
    Option<i64>,
    DecodeError,
> {
    match spec_get(fields, k) {
        Option::None => Err(DecodeError::MissingField),
        Option::Some(v) => match v {
            JsonValue::Null => Ok(Option::None),
            JsonValue::Int(n) => Ok(Option::Some(n)),
            _ => Err(DecodeError::WrongFieldType),
        },
    }
}

/// Reads one integer-or-null field of a decoded object.
pub fn opt_i64_field(fields: &Vec<(String, JsonValue)>, k: &str) -> (r: Result<
    Option<i64>,
    DecodeError,
>)
    ensures
        (match spec_opt_i64_field(fields@, k@) {
            Ok(n) => r matches Ok(a) && a == n,
            Err(e) => r matches Err(a) && a == e,
        }),
{
    match get_field(fields, k) {
        Option::None => Err(DecodeError::MissingField),
        Option::Some(v) => match v {
            JsonValue::Null => Ok(Option::None),
            JsonValue::Int(n) => Ok(Option::Some(*n)),
            _ => Err(DecodeError::WrongFieldType),
        },
    }
}

} // verus!
