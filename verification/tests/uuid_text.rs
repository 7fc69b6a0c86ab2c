use earthmc::uuids::Uuid;

#[test]
fn formats_hyphenated_lowercase() {
    let u = Uuid { bytes: [0xf1, 0x7d, 0x77, 0xab, 0xae, 0xd4, 0x44, 0xe7, 0x96, 0xef, 0xec,
        0x9c, 0xd4, 0x73, 0xed, 0xa3] };
    assert_eq!(u.to_hyphenated(), "f17d77ab-aed4-44e7-96ef-ec9cd473eda3");
}

#[test]
fn parses_what_it_formats() {
    let u = Uuid { bytes: [1, 2, 3, 4, 5, 6, 7, 8, 9, 10, 11, 12, 13, 14, 15, 255] };
    let text = u.to_hyphenated();
    let parsed = Uuid::parse(&text).unwrap();
    assert_eq!(parsed, u);
}

#[test]
fn parses_uppercase_text() {
    let parsed = Uuid::parse("F17D77AB-AED4-44E7-96EF-EC9CD473EDA3").unwrap();
    assert_eq!(parsed.to_hyphenated(), "f17d77ab-aed4-44e7-96ef-ec9cd473eda3");
}

#[test]
fn rejects_malformed_text() {
    assert!(Uuid::parse("").is_err());
    assert!(Uuid::parse("f17d77ab-aed4-44e7-96ef-ec9cd473eda").is_err());
    assert!(Uuid::parse("f17d77ab-aed4-44e7-96ef-ec9cd473eda3f").is_err());
    assert!(Uuid::parse("f17d77abxaed4-44e7-96ef-ec9cd473eda3").is_err());
    assert!(Uuid::parse("g17d77ab-aed4-44e7-96ef-ec9cd473eda3").is_err());
}

#[test]
fn agrees_with_the_uuid_crate() {
    let reference = uuid::Uuid::parse_str("971c5315-12c2-4c15-a8c3-d65121fa4e07").unwrap();
    let ours = Uuid { bytes: *reference.as_bytes() };
    assert_eq!(ours.to_hyphenated(), reference.hyphenated().to_string());
}
