use replay::version::{field_at, guess_version, parse_number, Version};

#[test]
fn version_keeps_its_numbers() {
    let version = Version::new(6, 4, 3, 398061);
    assert_eq!(version.major, 6);
    assert_eq!(version.minor, 4);
    assert_eq!(version.patch, 3);
    assert_eq!(version.num, 398061);
    assert_eq!(Version::default(), Version::new(0, 0, 0, 0));
}

#[test]
fn versions_are_ordered_by_their_numbers_in_turn() {
    assert!(Version::new(2, 3, 0, 0) > Version::new(2, 2, 9, 9));
    assert!(Version::new(6, 4, 3, 1) < Version::new(6, 4, 3, 2));
    assert!(Version::new(1, 0, 0, 0) > Version::new(0, 9, 9, 9));
}

#[test]
fn version_text_is_read() {
    assert_eq!(
        guess_version(b"$VERSION$6.4.3:398061:d3dac3f35d$\n"),
        Some(Version::new(6, 4, 3, 398061))
    );
}

#[test]
fn version_text_shorter_than_the_tag_is_none() {
    assert_eq!(guess_version(b""), None);
    assert_eq!(guess_version(b"$VERSION"), None);
    assert_eq!(guess_version(b"$VERSION$"), Some(Version::default()));
}

#[test]
fn tag_is_skipped_whatever_it_says() {
    assert_eq!(
        guess_version(b"123456789" as &[u8]),
        Some(Version::default())
    );
    assert_eq!(
        guess_version(b"1:2:3:4:51.2.3:4"),
        Some(Version::new(1, 2, 3, 4))
    );
}

#[test]
fn missing_numbers_are_zero() {
    assert_eq!(guess_version(b"$VERSION$6"), Some(Version::new(6, 0, 0, 0)));
    assert_eq!(
        guess_version(b"$VERSION$6.4"),
        Some(Version::new(6, 4, 0, 0))
    );
    assert_eq!(
        guess_version(b"$VERSION$6.4.3"),
        Some(Version::new(6, 4, 3, 0))
    );
    assert_eq!(
        guess_version(b"$VERSION$:77"),
        Some(Version::new(0, 0, 0, 77))
    );
}

#[test]
fn numbers_that_are_not_numbers_are_zero() {
    assert_eq!(
        guess_version(b"$VERSION$6.x.3:abc:9"),
        Some(Version::new(6, 0, 3, 0))
    );
    assert_eq!(
        guess_version(b"$VERSION$6..3:398061$"),
        Some(Version::new(6, 0, 3, 0))
    );
    assert_eq!(
        guess_version(b"$VERSION$ 6.4 .3:1"),
        Some(Version::new(0, 0, 3, 1))
    );
}

#[test]
fn further_fields_are_ignored() {
    assert_eq!(
        guess_version(b"$VERSION$6.4.3.9.9:1:2:3"),
        Some(Version::new(6, 4, 3, 1))
    );
}

#[test]
fn numbers_may_be_signed() {
    assert_eq!(
        guess_version(b"$VERSION$-6.+4.3:-1"),
        Some(Version::new(-6, 4, 3, -1))
    );
}

#[test]
fn number_is_decimal_digits_after_an_optional_sign() {
    assert_eq!(parse_number(b"0"), Some(0));
    assert_eq!(parse_number(b"398061"), Some(398061));
    assert_eq!(parse_number(b"+17"), Some(17));
    assert_eq!(parse_number(b"-17"), Some(-17));
    assert_eq!(parse_number(b"007"), Some(7));
    assert_eq!(parse_number(b"-0"), Some(0));
}

#[test]
fn number_agrees_with_the_standard_library() {
    for text in [
        "", "+", "-", "1", "-1", "+1", "--1", "+-1", "1-", "1 ", " 1", "12a", "a12", "0x10",
        "9223372036854775807", "9223372036854775808", "-9223372036854775808",
        "-9223372036854775809", "00000000000000000000000000001", "99999999999999999999",
        "1.5", "1e3",
    ] {
        assert_eq!(parse_number(text.as_bytes()), text.parse::<i64>().ok());
    }
}

#[test]
fn number_at_the_limits() {
    assert_eq!(parse_number(b"9223372036854775807"), Some(i64::MAX));
    assert_eq!(parse_number(b"-9223372036854775808"), Some(i64::MIN));
    assert_eq!(parse_number(b"9223372036854775808"), None);
    assert_eq!(parse_number(b"-9223372036854775809"), None);
    assert_eq!(parse_number(b"+9223372036854775808"), None);
}

#[test]
fn text_that_spells_no_number() {
    assert_eq!(parse_number(b""), None);
    assert_eq!(parse_number(b"-"), None);
    assert_eq!(parse_number(b"+"), None);
    assert_eq!(parse_number(b"1a"), None);
    assert_eq!(parse_number(b"d3dac3f35d$\n"), None);
}

#[test]
fn fields_are_parted_by_the_separator() {
    let text = b"6.4.3:398061:d3dac3f35d$\n";
    assert_eq!(field_at(text, b':', 0), Some(&b"6.4.3"[..]));
    assert_eq!(field_at(text, b':', 1), Some(&b"398061"[..]));
    assert_eq!(field_at(text, b':', 2), Some(&b"d3dac3f35d$\n"[..]));
    assert_eq!(field_at(text, b':', 3), None);
    assert_eq!(field_at(text, b'.', 1), Some(&b"4"[..]));
}

#[test]
fn fields_may_be_empty() {
    assert_eq!(field_at(b"", b':', 0), Some(&b""[..]));
    assert_eq!(field_at(b"", b':', 1), None);
    assert_eq!(field_at(b":", b':', 0), Some(&b""[..]));
    assert_eq!(field_at(b":", b':', 1), Some(&b""[..]));
    assert_eq!(field_at(b":", b':', 2), None);
    assert_eq!(field_at(b"a::b", b':', 1), Some(&b""[..]));
    assert_eq!(field_at(b"a::b", b':', 2), Some(&b"b"[..]));
}

#[test]
fn fields_agree_with_split() {
    for text in ["", "a", "a.b", ".a.", "..", "6.4.3", "a.b.c.d.e"] {
        let fields: Vec<&[u8]> = text.split('.').map(|field| field.as_bytes()).collect();
        for index in 0..8 {
            assert_eq!(
                field_at(text.as_bytes(), b'.', index),
                fields.get(index).copied()
            );
        }
    }
}
