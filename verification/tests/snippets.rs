use earthmc::errors::snippet_around;
use earthmc::errors::Error;
use earthmc::world::World;

#[test]
fn snippet_centers_on_the_reported_position() {
    let text = "0123456789abcdefghij";
    let s = snippet_around(text, 1, 11, 3);
    assert_eq!(s, "…789abc…");
}

#[test]
fn snippet_clamps_position_beyond_the_text() {
    let text = "short";
    let n = 4usize;
    let s = snippet_around(text, 9, 99, n);
    assert_eq!(s, "…hort");
    assert!(s.chars().count() <= 2 * n);
}

#[test]
fn snippet_at_the_start_has_no_leading_ellipsis() {
    let text = "hello world";
    let s = snippet_around(text, 1, 1, 4);
    assert_eq!(s, "hell…");
}

#[test]
fn snippet_counts_lines() {
    let text = "aa\nbb\ncc";
    let s = snippet_around(text, 3, 1, 2);
    assert_eq!(s, "…b\ncc");
}

#[test]
fn snippet_covers_whole_small_text() {
    let text = "ab";
    let s = snippet_around(text, 1, 1, 10);
    assert_eq!(s, "ab");
}

#[test]
fn as_string() {
    assert_eq!(World::Aurora.as_string(), "aurora");
    assert_eq!(World::Other("nostra".to_string()).as_string(), "nostra");
}

#[test]
fn error_descriptions() {
    assert_eq!(
        Error::HttpStatus(503).describe(),
        "HTTP error: status 503"
    );
    assert_eq!(
        Error::Transport("connection refused".to_string()).describe(),
        "HTTP error: connection refused"
    );
    assert_eq!(
        Error::Deserialization("expected value".to_string()).describe(),
        "JSON deserialization error: expected value"
    );
    let e = Error::DeserializationWithSnippet {
        message: "expected value".to_string(),
        snippet: "…oops…".to_string(),
    };
    assert_eq!(
        e.describe(),
        "JSON deserialization failed: expected value\nSnippet:\n…oops…"
    );
    assert_eq!(Error::TooManyRetry(vec![]).describe(), "Too many retries");
}
