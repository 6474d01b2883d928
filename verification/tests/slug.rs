use sol_pay_client::slug::{Slug, SlugError};

#[test]
fn slug_round_trips() {
    let bytes = [
        0u8, 1, 2, 3, 250, 251, 252, 253, 128, 64, 32, 16, 8, 4, 2, 255,
    ];
    let slug = Slug::from_bytes(bytes);
    let s = slug.encode();
    assert_eq!(s.len(), 22);
    assert_eq!(Slug::parse(&s).unwrap(), slug);
}

#[test]
fn rejects_bad_input() {
    assert!(matches!(Slug::parse("tooshort"), Err(SlugError::WrongLength(8))));
    let bad = "A".repeat(21) + "*";
    assert!(matches!(Slug::parse(&bad), Err(SlugError::BadCharacter('*'))));
}

#[test]
fn encodes_as_unpadded_base64url() {
    assert_eq!(Slug::from_bytes([0u8; 16]).encode(), "AAAAAAAAAAAAAAAAAAAAAA");
    assert_eq!(Slug::from_bytes([255u8; 16]).encode(), "_____________________w");
    let mut b = [0u8; 16];
    b[0] = 0xfb;
    b[1] = 0xef;
    assert_eq!(&Slug::from_bytes(b).encode()[..3], "--8");
}

#[test]
fn the_length_is_counted_in_bytes() {
    // 21 characters, one of them two bytes long: 22 bytes, so it is the
    // character that is refused, not the length.
    let s = "A".repeat(20) + "é";
    assert_eq!(Slug::parse(&s), Err(SlugError::BadCharacter('é')));
    assert_eq!(Slug::parse(""), Err(SlugError::WrongLength(0)));
    assert!(matches!(Slug::parse(&"A".repeat(23)), Err(SlugError::WrongLength(23))));
}

#[test]
fn the_first_bad_character_is_reported() {
    let s = "AAAA.AAAAAAAAAAAAAAA+A".to_string();
    assert_eq!(s.len(), 22);
    assert_eq!(Slug::parse(&s), Err(SlugError::BadCharacter('.')));
}

#[test]
fn as_bytes_gives_back_what_was_given() {
    let b = [7u8; 16];
    assert_eq!(Slug::from_bytes(b).as_bytes(), &b);
}

#[test]
fn slug_errors_read_as_sentences() {
    assert_eq!(SlugError::WrongLength(8).message(), "slug must be 22 characters, got 8");
    assert_eq!(SlugError::BadCharacter('*').message(), "slug contains invalid character '*'");
    for c in ['*', '\n', '\t', '\r', '\'', '\\', '\0', '\u{1}', '\u{1b}', '\u{7f}', '"', 'é', ' ', '\u{85}', '\u{ad}', '\u{301}', '\u{200b}', '\u{10ffff}'] {
        assert_eq!(
            SlugError::BadCharacter(c).message(),
            format!("slug contains invalid character {c:?}"),
            "{c:?}"
        );
    }
}
