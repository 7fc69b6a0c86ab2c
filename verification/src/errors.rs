//! The error taxonomy of the client, and the diagnostic snippet helper that
//! accompanies deserialization failures.

use vstd::prelude::*;
use vstd::string::StrSliceExecFns;
use vstd::string::StringExecFns;

verus! {

/// A failure of a request or of the handling of its response.
#[derive(Debug)]
pub enum Error {
    /// The transport failed before any HTTP status was available; carries the
    /// transport's own description.
    Transport(String),
    /// The server answered with a status outside the 2xx range.
    HttpStatus(u16),
    /// The response body did not match the expected schema; carries the
    /// parser's description.
    Deserialization(String),
    /// As `Deserialization`, together with a snippet of the response text
    /// around the position the parser reported.
    DeserializationWithSnippet { message: String, snippet: String },
    /// A retry strategy gave up; carries the errors of the failed attempts
    /// in order, the terminal one last.
    TooManyRetry(Vec<Error>),
}

/// A builder was finalized while a structurally required field was missing;
/// carries that field's name.
#[derive(Debug, Clone, Copy, PartialEq, Eq)]
pub enum BuildError {
    UninitializedField(&'static str),
}

/// The index of the first character of the given 1-based line: the position
/// just after the `line - 1`-th newline, clamped to the end of the text.
pub open spec fn spec_line_start(s: Seq<char>, line: nat) -> int
    decreases s.len(),
{
    if line <= 1 || s.len() == 0 {
        0
    } else if s[0] == '\n' {
        1 + spec_line_start(s.drop_first(), (line - 1) as nat)
    } else {
        1 + spec_line_start(s.drop_first(), line)
    }
}

pub proof fn lemma_line_start_bounds(s: Seq<char>, line: nat)
    ensures
        0 <= spec_line_start(s, line) <= s.len(),
    decreases s.len(),
{
    if line <= 1 || s.len() == 0 {
    } else if s[0] == '\n' {
        lemma_line_start_bounds(s.drop_first(), (line - 1) as nat);
    } else {
        lemma_line_start_bounds(s.drop_first(), line);
    }
}

/// The character index a reported 1-based line and column point at, clamped
/// to the end of the text.
pub open spec fn spec_error_pos(s: Seq<char>, line: nat, column: nat) -> int {
    let ls = spec_line_start(s, line);
    let cm1: int = if column > 0 {
        column - 1
    } else {
        0
    };
    if ls + cm1 > s.len() {
        s.len() as int
    } else {
        ls + cm1
    }
}

/// The snippet of up to `context` characters on either side of the reported
/// position, with an ellipsis marking each truncated end.
pub open spec fn spec_snippet(s: Seq<char>, line: nat, column: nat, context: nat) -> Seq<char> {
    let pos = spec_error_pos(s, line, column);
    let start: int = if pos - context < 0 {
        0
    } else {
        pos - context
    };
    let end: int = if pos + context > s.len() {
        s.len() as int
    } else {
        pos + context
    };
    (if start > 0 {
        seq!['…']
    } else {
        Seq::<char>::empty()
    }) + s.subrange(start, end) + (if end < s.len() {
        seq!['…']
    } else {
        Seq::<char>::empty()
    })
}

/// Given a piece of text and the 1-based line and column a parser reported,
/// returns a small snippet of the text around that position. Positions out of
/// range are clamped to the text's bounds.
pub fn snippet_around(full: &str, line: usize, column: usize, context: usize) -> (r: String)
    ensures
        r@ == spec_snippet(full@, line as nat, column as nat, context as nat),
{
    let len = full.unicode_len();
    let mut i: usize = 0;
    let mut cur_line: usize = 1;
    proof {
        assert(full@.skip(0) =~= full@);
    }
    while cur_line < line && i < len
        invariant
            0 <= i <= len,
            len == full@.len(),
            1 <= cur_line,
            line > 0 ==> cur_line <= line,
            line == 0 ==> cur_line == 1,
            spec_line_start(full@, line as nat) == i + spec_line_start(
                full@.skip(i as int),
                (line - cur_line + 1) as nat,
            ),
        decreases len - i,
    {
        proof {
            assert(full@.skip(i as int)[0] == full@[i as int]);
            assert(full@.skip(i as int).drop_first() =~= full@.skip(i as int + 1));
        }
        if full.get_char(i) == '\n' {
            cur_line += 1;
        }
        i += 1;
    }
    proof {
        if cur_line >= line {
            assert(spec_line_start(full@.skip(i as int), (line - cur_line + 1) as nat) == 0);
        } else {
            assert(full@.skip(i as int).len() == 0);
        }
        assert(spec_line_start(full@, line as nat) == i);
    }
    let cm1: usize = if column > 0 {
        column - 1
    } else {
        0
    };
    let pos: usize = if cm1 >= len - i {
        len
    } else {
        i + cm1
    };
    proof {
        assert(pos == spec_error_pos(full@, line as nat, column as nat));
    }
    let start: usize = if context > pos {
        0
    } else {
        pos - context
    };
    let end: usize = if context >= len - pos {
        len
    } else {
        pos + context
    };
    let mut out = String::new();
    proof {
        reveal_strlit("…");
        assert("…"@ =~= seq!['…']);
    }
    if start > 0 {
        out.append("…");
    }
    let mid = full.substring_char(start, end);
    out.append(mid);
    if end < len {
        out.append("…");
    }
    proof {
        assert(out@ =~= spec_snippet(full@, line as nat, column as nat, context as nat));
    }
    out
}

/// Law: whatever the reported position, the snippet holds at most
/// `2 * context` text characters plus at most one ellipsis at each end.
pub proof fn lemma_snippet_bounded(s: Seq<char>, line: nat, column: nat, context: nat)
    ensures
        spec_snippet(s, line, column, context).len() <= 2 * context + 2,
{
    lemma_line_start_bounds(s, line);
}

/// Law: when the reported position lies at or beyond the end of the text, the
/// snippet holds at most `context` text characters, plus at most one leading
/// ellipsis; in particular it never exceeds `2 * context` characters once
/// `context` is at least one.
pub proof fn lemma_snippet_clamped(s: Seq<char>, line: nat, column: nat, context: nat)
    requires
        spec_line_start(s, line) + (if column > 0 {
            (column - 1) as int
        } else {
            0
        }) >= s.len(),
    ensures
        spec_snippet(s, line, column, context).len() <= context + 1,
        context >= 1 ==> spec_snippet(s, line, column, context).len() <= 2 * context,
{
    lemma_line_start_bounds(s, line);
}

/// The decimal digit character of a value below ten.
pub open spec fn spec_dec_char(d: nat) -> char {
    if d == 0 {
        '0'
    } else if d == 1 {
        '1'
    } else if d == 2 {
        '2'
    } else if d == 3 {
        '3'
    } else if d == 4 {
        '4'
    } else if d == 5 {
        '5'
    } else if d == 6 {
        '6'
    } else if d == 7 {
        '7'
    } else if d == 8 {
        '8'
    } else {
        '9'
    }
}

/// The decimal text of a number, most significant digit first.
pub open spec fn spec_dec(n: nat) -> Seq<char>
    decreases n,
{
    if n < 10 {
        seq![spec_dec_char(n)]
    } else {
        spec_dec(n / 10) + seq![spec_dec_char(n % 10)]
    }
}

/// The decimal digit of a value below ten, as a one-character string.
fn dec_str(d: u16) -> (r: &'static str)
    requires
        d < 10,
    ensures
        r@ == seq![spec_dec_char(d as nat)],
{
    proof {
        reveal_strlit("0");
        reveal_strlit("1");
        reveal_strlit("2");
        reveal_strlit("3");
        reveal_strlit("4");
        reveal_strlit("5");
        reveal_strlit("6");
        reveal_strlit("7");
        reveal_strlit("8");
        reveal_strlit("9");
    }
    if d == 0 {
        "0"
    } else if d == 1 {
        "1"
    } else if d == 2 {
        "2"
    } else if d == 3 {
        "3"
    } else if d == 4 {
        "4"
    } else if d == 5 {
        "5"
    } else if d == 6 {
        "6"
    } else if d == 7 {
        "7"
    } else if d == 8 {
        "8"
    } else {
        "9"
    }
}

/// Appends the decimal text of `n` to `out`.
fn push_dec(out: &mut String, n: u16)
    ensures
        final(out)@ == old(out)@ + spec_dec(n as nat),
    decreases n,
{
    if n < 10 {
        out.append(dec_str(n));
    } else {
        push_dec(out, n / 10);
        out.append(dec_str(n % 10));
    }
}

/// The one-line description of an error, in the shape a caller would log.
pub open spec fn spec_describe(e: Error) -> Seq<char> {
    match e {
        Error::Transport(msg) => "HTTP error: "@ + msg@,
        Error::HttpStatus(status) => "HTTP error: status "@ + spec_dec(status as nat),
        Error::Deserialization(msg) => "JSON deserialization error: "@ + msg@,
        Error::DeserializationWithSnippet { message, snippet } => "JSON deserialization failed: "@
            + message@ + "\nSnippet:\n"@ + snippet@,
        Error::TooManyRetry(_) => "Too many retries"@,
    }
}

impl Error {
    /// Describes this error in one line, as its display text.
    pub fn describe(&self) -> (r: String)
        ensures
            r@ == spec_describe(*self),
    {
        match self {
            Error::Transport(msg) => {
                let mut out = "HTTP error: ".to_owned();
                out.append(msg.as_str());
                out
            },
            Error::HttpStatus(status) => {
                let mut out = "HTTP error: status ".to_owned();
                push_dec(&mut out, *status);
                out
            },
            Error::Deserialization(msg) => {
                let mut out = "JSON deserialization error: ".to_owned();
                out.append(msg.as_str());
                out
            },
            Error::DeserializationWithSnippet { message, snippet } => {
                let mut out = "JSON deserialization failed: ".to_owned();
                out.append(message.as_str());
                out.append("\nSnippet:\n");
                out.append(snippet.as_str());
                out
            },
            Error::TooManyRetry(_) => "Too many retries".to_owned(),
        }
    }
}

} // verus!
