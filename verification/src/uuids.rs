//! Universally unique identifiers, held as their sixteen raw bytes.
//!
//! The API transports every identifier as the standard hyphenated lowercase
//! hex text; both directions of that encoding are implemented here.

use vstd::prelude::*;
use vstd::string::StrSliceExecFns;
use vstd::string::StringExecFns;

use crate::json::DecodeError;

verus! {

/// A 128-bit identifier, as the API reports one for every named object.
#[derive(Debug, Clone, Copy, PartialEq, Eq)]
pub struct Uuid {
    pub bytes: [u8; 16],
}

/// The lowercase hex digit of a value below sixteen.
pub open spec fn spec_hex_char(d: u8) -> char {
    if d == 0 {
        '0'
    } else if d == 1 {
        '1'
    } else if d == 2 {
        '2'
    } else if d == 3 {
        '3'
    } else if d == 4 {
        '4'
    } else if d == 5 {
        '5'
    } else if d == 6 {
        '6'
    } else if d == 7 {
        '7'
    } else if d == 8 {
        '8'
    } else if d == 9 {
        '9'
    } else if d == 10 {
        'a'
    } else if d == 11 {
        'b'
    } else if d == 12 {
        'c'
    } else if d == 13 {
        'd'
    } else if d == 14 {
        'e'
    } else {
        'f'
    }
}

/// The value of a hex digit, either case, or `None`.
pub open spec fn spec_hex_val(c: char) -> Option<u8> {
    if c == '0' {
        Some(0u8)
    } else if c == '1' {
        Some(1u8)
    } else if c == '2' {
        Some(2u8)
    } else if c == '3' {
        Some(3u8)
    } else if c == '4' {
        Some(4u8)
    } else if c == '5' {
        Some(5u8)
    } else if c == '6' {
        Some(6u8)
    } else if c == '7' {
        Some(7u8)
    } else if c == '8' {
        Some(8u8)
    } else if c == '9' {
        Some(9u8)
    } else if c == 'a' || c == 'A' {
        Some(10u8)
    } else if c == 'b' || c == 'B' {
        Some(11u8)
    } else if c == 'c' || c == 'C' {
        Some(12u8)
    } else if c == 'd' || c == 'D' {
        Some(13u8)
    } else if c == 'e' || c == 'E' {
        Some(14u8)
    } else if c == 'f' || c == 'F' {
        Some(15u8)
    } else {
        None
    }
}

/// The value of a hex digit, and 0 for any other character.
pub open spec fn spec_hex_val_or0(c: char) -> u8 {
    match spec_hex_val(c) {
        Some(d) => d,
        None => 0,
    }
}

/// The two lowercase hex digits of a byte.
pub open spec fn spec_hex_pair(b: u8) -> Seq<char> {
    seq![spec_hex_char(b / 16), spec_hex_char(b % 16)]
}

/// The hex text of a byte sequence, two digits per byte.
pub open spec fn spec_hex_seq(bs: Seq<u8>) -> Seq<char>
    decreases bs.len(),
{
    if bs.len() == 0 {
        Seq::empty()
    } else {
        spec_hex_pair(bs[0]) + spec_hex_seq(bs.drop_first())
    }
}

/// The standard hyphenated text of sixteen identifier bytes: groups of
/// 8, 4, 4, 4 and 12 hex digits.
pub open spec fn spec_hyphenated(bs: Seq<u8>) -> Seq<char> {
    spec_hex_seq(bs.subrange(0, 4)) + seq!['-'] + spec_hex_seq(bs.subrange(4, 6)) + seq!['-']
        + spec_hex_seq(bs.subrange(6, 8)) + seq!['-'] + spec_hex_seq(bs.subrange(8, 10))
        + seq!['-'] + spec_hex_seq(bs.subrange(10, 16))
}

/// The text position of the high digit of byte `i` in hyphenated text.
pub open spec fn spec_digit_pos(i: int) -> int {
    2 * i + if i < 4 {
        0int
    } else if i < 6 {
        1int
    } else if i < 8 {
        2int
    } else if i < 10 {
        3int
    } else {
        4int
    }
}

/// Whether a piece of text is a well-formed hyphenated identifier: 36
/// characters, hyphens at positions 8, 13, 18 and 23, and a hex digit of
/// either case everywhere else.
pub open spec fn spec_is_uuid_text(t: Seq<char>) -> bool {
    &&& t.len() == 36
    &&& t[8] == '-'
    &&& t[13] == '-'
    &&& t[18] == '-'
    &&& t[23] == '-'
    &&& forall|i: int|
        0 <= i < 16 ==> #[trigger] spec_hex_val(t[spec_digit_pos(i)]) is Some && spec_hex_val(
            t[spec_digit_pos(i) + 1],
        ) is Some
}

/// The sixteen bytes a well-formed hyphenated identifier denotes.
pub open spec fn spec_uuid_bytes(t: Seq<char>) -> Seq<u8> {
    Seq::new(
        16,
        |i: int|
            (16 * spec_hex_val_or0(t[spec_digit_pos(i)]) + spec_hex_val_or0(
                t[spec_digit_pos(i) + 1],
            )) as u8,
    )
}

proof fn lemma_hex_seq_len(bs: Seq<u8>)
    ensures
        spec_hex_seq(bs).len() == 2 * bs.len(),
    decreases bs.len(),
{
    if bs.len() > 0 {
        lemma_hex_seq_len(bs.drop_first());
    }
}

proof fn lemma_hex_seq_index(bs: Seq<u8>, i: int)
    requires
        0 <= i < bs.len(),
    ensures
        spec_hex_seq(bs).len() == 2 * bs.len(),
        spec_hex_seq(bs)[2 * i] == spec_hex_char(bs[i] / 16),
        spec_hex_seq(bs)[2 * i + 1] == spec_hex_char(bs[i] % 16),
    decreases bs.len(),
{
    lemma_hex_seq_len(bs);
    if i > 0 {
        lemma_hex_seq_index(bs.drop_first(), i - 1);
    } else {
        lemma_hex_seq_len(bs.drop_first());
    }
}

proof fn lemma_hex_seq_push(bs: Seq<u8>, x: u8)
    ensures
        spec_hex_seq(bs.push(x)) == spec_hex_seq(bs) + spec_hex_pair(x),
    decreases bs.len(),
{
    if bs.len() == 0 {
        assert(bs.push(x)[0] == x);
        assert(bs.push(x).drop_first() =~= bs);
        assert(spec_hex_seq(bs.push(x)) == spec_hex_pair(x) + spec_hex_seq(bs));
        assert(spec_hex_seq(bs) =~= Seq::<char>::empty());
        assert(spec_hex_seq(bs.push(x)) =~= spec_hex_seq(bs) + spec_hex_pair(x));
    } else {
        assert(bs.push(x)[0] == bs[0]);
        assert(bs.push(x).drop_first() =~= bs.drop_first().push(x));
        lemma_hex_seq_push(bs.drop_first(), x);
        assert(spec_hex_seq(bs.push(x)) == spec_hex_pair(bs[0]) + spec_hex_seq(
            bs.drop_first().push(x),
        ));
        assert(spec_hex_seq(bs.drop_first().push(x)) == spec_hex_seq(bs.drop_first())
            + spec_hex_pair(x));
        assert(spec_hex_seq(bs) == spec_hex_pair(bs[0]) + spec_hex_seq(bs.drop_first()));
        assert(spec_hex_seq(bs.push(x)) =~= spec_hex_seq(bs) + spec_hex_pair(x));
    }
}

/// The hex digit of a value below sixteen, as a one-character string.
fn hex_str(d: u8) -> (r: &'static str)
    requires
        d < 16,
    ensures
        r@ == seq![spec_hex_char(d)],
{
    proof {
        reveal_strlit("0");
        reveal_strlit("1");
        reveal_strlit("2");
        reveal_strlit("3");
        reveal_strlit("4");
        reveal_strlit("5");
        reveal_strlit("6");
        reveal_strlit("7");
        reveal_strlit("8");
        reveal_strlit("9");
        reveal_strlit("a");
        reveal_strlit("b");
        reveal_strlit("c");
        reveal_strlit("d");
        reveal_strlit("e");
        reveal_strlit("f");
    }
    if d == 0 {
        "0"
    } else if d == 1 {
        "1"
    } else if d == 2 {
        "2"
    } else if d == 3 {
        "3"
    } else if d == 4 {
        "4"
    } else if d == 5 {
        "5"
    } else if d == 6 {
        "6"
    } else if d == 7 {
        "7"
    } else if d == 8 {
        "8"
    } else if d == 9 {
        "9"
    } else if d == 10 {
        "a"
    } else if d == 11 {
        "b"
    } else if d == 12 {
        "c"
    } else if d == 13 {
        "d"
    } else if d == 14 {
        "e"
    } else {
        "f"
    }
}

/// Appends the hex digits of `bytes[from..to]` to `out`.
fn push_hex(out: &mut String, bytes: &[u8; 16], from: usize, to: usize)
    requires
        from <= to <= 16,
    ensures
        final(out)@ == old(out)@ + spec_hex_seq(bytes@.subrange(from as int, to as int)),
{
    let mut i: usize = from;
    proof {
        assert(bytes@.subrange(from as int, from as int) =~= Seq::<u8>::empty());
    }
    while i < to
        invariant
            from <= i <= to,
            to <= 16,
            bytes@.len() == 16,
            out@ == old(out)@ + spec_hex_seq(bytes@.subrange(from as int, i as int)),
        decreases to - i,
    {
        let b = bytes[i];
        out.append(hex_str(b / 16));
        out.append(hex_str(b % 16));
        proof {
            assert(bytes@.subrange(from as int, i as int + 1) =~= bytes@.subrange(
                from as int,
                i as int,
            ).push(bytes@[i as int]));
            lemma_hex_seq_push(bytes@.subrange(from as int, i as int), bytes@[i as int]);
        }
        i += 1;
    }
}

/// The value of a hex digit character, either case.
fn hex_val(c: char) -> (r: Option<u8>)
    ensures
        r == spec_hex_val(c),
{
    if c == '0' {
        Some(0u8)
    } else if c == '1' {
        Some(1u8)
    } else if c == '2' {
        Some(2u8)
    } else if c == '3' {
        Some(3u8)
    } else if c == '4' {
        Some(4u8)
    } else if c == '5' {
        Some(5u8)
    } else if c == '6' {
        Some(6u8)
    } else if c == '7' {
        Some(7u8)
    } else if c == '8' {
        Some(8u8)
    } else if c == '9' {
        Some(9u8)
    } else if c == 'a' || c == 'A' {
        Some(10u8)
    } else if c == 'b' || c == 'B' {
        Some(11u8)
    } else if c == 'c' || c == 'C' {
        Some(12u8)
    } else if c == 'd' || c == 'D' {
        Some(13u8)
    } else if c == 'e' || c == 'E' {
        Some(14u8)
    } else if c == 'f' || c == 'F' {
        Some(15u8)
    } else {
        None
    }
}

/// The text position of the high digit of byte `i`.
fn digit_pos(i: usize) -> (r: usize)
    requires
        i < 16,
    ensures
        r == spec_digit_pos(i as int),
{
    2 * i + if i < 4 {
        0usize
    } else if i < 6 {
        1usize
    } else if i < 8 {
        2usize
    } else if i < 10 {
        3usize
    } else {
        4usize
    }
}

impl Uuid {
    /// The hyphenated lowercase text of this identifier.
    pub open spec fn spec_str(&self) -> Seq<char> {
        spec_hyphenated(self.bytes@)
    }

    /// Formats this identifier in the standard hyphenated lowercase form.
    pub fn to_hyphenated(&self) -> (r: String)
        ensures
            r@ == self.spec_str(),
    {
        let mut out = String::new();
        proof {
            reveal_strlit("-");
            assert("-"@ =~= seq!['-']);
        }
        push_hex(&mut out, &self.bytes, 0, 4);
        out.append("-");
        push_hex(&mut out, &self.bytes, 4, 6);
        out.append("-");
        push_hex(&mut out, &self.bytes, 6, 8);
        out.append("-");
        push_hex(&mut out, &self.bytes, 8, 10);
        out.append("-");
        push_hex(&mut out, &self.bytes, 10, 16);
        out
    }

    /// Parses hyphenated identifier text of either case; rejects everything
    /// that is not exactly 36 characters in the standard grouping.
    pub fn parse(s: &str) -> (r: Result<Uuid, DecodeError>)
        ensures
            (r matches Ok(u) ==> spec_is_uuid_text(s@) && u.bytes@ == spec_uuid_bytes(s@)),
            r is Err <==> !spec_is_uuid_text(s@),
    {
        if s.unicode_len() != 36 {
            return Err(DecodeError::BadUuid);
        }
        if s.get_char(8) != '-' || s.get_char(13) != '-' || s.get_char(18) != '-' || s.get_char(23)
            != '-' {
            return Err(DecodeError::BadUuid);
        }
        let mut bytes: [u8; 16] = [0;16];
        let mut i: usize = 0;
        while i < 16
            invariant
                i <= 16,
                s@.len() == 36,
                bytes@.len() == 16,
                forall|j: int|
                    0 <= j < i ==> #[trigger] spec_hex_val(s@[spec_digit_pos(j)]) is Some
                        && spec_hex_val(s@[spec_digit_pos(j) + 1]) is Some,
                forall|j: int| 0 <= j < i ==> bytes@[j] == spec_uuid_bytes(s@)[j],
            decreases 16 - i,
        {
            let p = digit_pos(i);
            let hi = match hex_val(s.get_char(p)) {
                Some(d) => d,
                None => {
                    return Err(DecodeError::BadUuid);
                },
            };
            let lo = match hex_val(s.get_char(p + 1)) {
                Some(d) => d,
                None => {
                    return Err(DecodeError::BadUuid);
                },
            };
            bytes[i] = 16 * hi + lo;
            i += 1;
        }
        Ok(Uuid { bytes })
    }
}

/// Law: formatting sixteen bytes and parsing the text back yields the same
/// bytes; the formatted text is always well-formed.
#[verifier::rlimit(60)]
pub proof fn lemma_uuid_text_round_trip(bs: Seq<u8>)
    requires
        bs.len() == 16,
    ensures
        spec_is_uuid_text(spec_hyphenated(bs)),
        spec_uuid_bytes(spec_hyphenated(bs)) =~= bs,
{
    let t = spec_hyphenated(bs);
    let g0 = spec_hex_seq(bs.subrange(0, 4));
    let g1 = spec_hex_seq(bs.subrange(4, 6));
    let g2 = spec_hex_seq(bs.subrange(6, 8));
    let g3 = spec_hex_seq(bs.subrange(8, 10));
    let g4 = spec_hex_seq(bs.subrange(10, 16));
    lemma_hex_seq_len(bs.subrange(0, 4));
    lemma_hex_seq_len(bs.subrange(4, 6));
    lemma_hex_seq_len(bs.subrange(6, 8));
    lemma_hex_seq_len(bs.subrange(8, 10));
    lemma_hex_seq_len(bs.subrange(10, 16));
    assert(t.len() == 36);
    assert(t[8] == '-');
    assert(t[13] == '-');
    assert(t[18] == '-');
    assert(t[23] == '-');
    assert forall|i: int| 0 <= i < 16 implies {
        &&& #[trigger] spec_hex_val(t[spec_digit_pos(i)]) == Some((bs[i] / 16) as u8)
        &&& spec_hex_val(t[spec_digit_pos(i) + 1]) == Some((bs[i] % 16) as u8)
    } by {
        let p = spec_digit_pos(i);
        if i < 4 {
            lemma_hex_seq_index(bs.subrange(0, 4), i);
            assert(t[p] == g0[2 * i]);
            assert(t[p + 1] == g0[2 * i + 1]);
            assert(bs.subrange(0, 4)[i] == bs[i]);
        } else if i < 6 {
            lemma_hex_seq_index(bs.subrange(4, 6), i - 4);
            assert(t[p] == g1[2 * (i - 4)]);
            assert(t[p + 1] == g1[2 * (i - 4) + 1]);
            assert(bs.subrange(4, 6)[i - 4] == bs[i]);
        } else if i < 8 {
            lemma_hex_seq_index(bs.subrange(6, 8), i - 6);
            assert(t[p] == g2[2 * (i - 6)]);
            assert(t[p + 1] == g2[2 * (i - 6) + 1]);
            assert(bs.subrange(6, 8)[i - 6] == bs[i]);
        } else if i < 10 {
            lemma_hex_seq_index(bs.subrange(8, 10), i - 8);
            assert(t[p] == g3[2 * (i - 8)]);
            assert(t[p + 1] == g3[2 * (i - 8) + 1]);
            assert(bs.subrange(8, 10)[i - 8] == bs[i]);
        } else {
            lemma_hex_seq_index(bs.subrange(10, 16), i - 10);
            assert(t[p] == g4[2 * (i - 10)]);
            assert(t[p + 1] == g4[2 * (i - 10) + 1]);
            assert(bs.subrange(10, 16)[i - 10] == bs[i]);
        }
    }
    assert forall|i: int| 0 <= i < 16 implies spec_uuid_bytes(t)[i] == bs[i] by {
        assert(spec_hex_val(t[spec_digit_pos(i)]) == Some((bs[i] / 16) as u8));
        assert(spec_hex_val(t[spec_digit_pos(i) + 1]) == Some((bs[i] % 16) as u8));
    }
}

} // verus!
