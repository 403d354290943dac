use tm_mumble_link::identity::{
    base63_encode, format_context, format_identity, format_identity_counted,
    obfs_uid_or_svr_login,
};
use tm_mumble_link::text::Counter;

const ALPHABET: &str = "abcdefghijklmnopqrstuvwxyzABCDEFGHIJKLMNOPQRSTUVWXYZ0123456789_";

#[test]
fn identity_string_has_name_login_and_nonce() {
    assert_eq!(format_identity("Alice", "alice123", 7), "Alice|alice123|7");
}

#[test]
fn identity_string_of_nothing() {
    assert_eq!(format_identity("", "", 0), "||0");
}

#[test]
fn identity_string_with_the_largest_nonce() {
    assert_eq!(format_identity("a", "b", u64::MAX), "a|b|18446744073709551615");
}

#[test]
fn a_counter_counts_without_end() {
    let mut c = Counter::new();
    assert_eq!(c.to_text(), "0");
    for expected in 1..=1234u32 {
        c = c.next();
        assert_eq!(c.to_text(), expected.to_string());
    }
    assert_eq!(c.next(), c.next());
    assert_ne!(c.next(), c);
}

#[test]
fn a_counter_carries_over_every_nine() {
    let mut c = Counter::new();
    for _ in 0..9 {
        c = c.next();
    }
    assert_eq!(c.to_text(), "9");
    assert_eq!(c.next().to_text(), "10");
    for _ in 0..990 {
        c = c.next();
    }
    assert_eq!(c.to_text(), "999");
    assert_eq!(c.next().to_text(), "1000");
    assert_eq!(c.next().next().to_text(), "1001");
}

#[test]
fn identity_string_of_a_counter() {
    let mut c = Counter::new();
    assert_eq!(format_identity_counted("Alice", "alice123", &c), "Alice|alice123|0");
    for _ in 0..7 {
        c = c.next();
    }
    assert_eq!(format_identity_counted("Alice", "alice123", &c), "Alice|alice123|7");
    assert_eq!(format_identity_counted("", "", &c.next()), "||8");
}

#[test]
fn context_string_has_tag_server_and_team() {
    assert_eq!(format_context("srv1", "Blue"), "TM|srv1|Blue");
    assert_eq!(format_context("", "All"), "TM||All");
}

#[test]
fn the_nonce_is_written_as_a_decimal_numeral() {
    assert_eq!(format_identity("", "", 0), "||0");
    assert_eq!(format_identity("", "", 9), "||9");
    assert_eq!(format_identity("", "", 10), "||10");
    assert_eq!(format_identity("", "", 46323), "||46323");
    assert_eq!(format_identity("", "", 1_000_000_007), "||1000000007");
}

#[test]
fn obfuscating_nothing_gives_nothing() {
    assert_eq!(obfs_uid_or_svr_login(""), "");
}

#[test]
fn obfuscation_is_the_base63_text_of_the_md5_digest() {
    assert_eq!(obfs_uid_or_svr_login("abc"), "h4hv09rUy5NOScoLHTbuid");
    assert_eq!(obfs_uid_or_svr_login("srv1"), "qpwI0N6PcXfgrSKDknKm5b");
    assert_eq!(obfs_uid_or_svr_login("a"), "CPbpvRn1CQxkQEWG7whEr");
    assert_eq!(obfs_uid_or_svr_login("é"), "bMb1nae4aaA1QV9LITX7oc");
}

#[test]
fn obfuscation_gives_the_same_text_each_time() {
    let first = obfs_uid_or_svr_login("Stadium_Map-01");
    let second = obfs_uid_or_svr_login("Stadium_Map-01");
    assert_eq!(first, second);
    assert_eq!(first, "D7DlAjFoQgkpFXxkbGKxGf");
}

#[test]
fn obfuscation_stays_short_and_in_the_alphabet() {
    for login in ["x", "server-login", "a much longer identifier with spaces", "ünïcödé"] {
        let shown = obfs_uid_or_svr_login(login);
        assert!(shown.chars().count() <= 25);
        assert!(shown.chars().all(|c| ALPHABET.contains(c)));
        assert_ne!(shown, login);
    }
}

#[test]
fn base63_of_few_bytes() {
    assert_eq!(base63_encode(&[]), "");
    assert_eq!(base63_encode(&[0]), "");
    assert_eq!(base63_encode(&[62]), "_");
    assert_eq!(base63_encode(&[63]), "ab");
    assert_eq!(base63_encode(&[1, 0]), "ee");
    assert_eq!(base63_encode(&[0xFF, 0xFF]), "pGq");
    assert_eq!(base63_encode(&[1, 2, 3, 4, 5]), "mpNXwe");
}

#[test]
fn base63_passes_over_leading_zero_bytes() {
    assert_eq!(base63_encode(&[0, 0, 5]), "f");
    assert_eq!(base63_encode(&[5]), "f");
    assert_eq!(base63_encode(&[0, 0, 0, 0]), "");
}

#[test]
fn base63_digits_are_those_of_the_number() {
    let digits = base63_encode(&[0x12, 0x34, 0x56, 0x78]);
    let mut n: u64 = 0;
    for c in digits.chars().rev() {
        n = n * 63 + ALPHABET.find(c).unwrap() as u64;
    }
    assert_eq!(n, 0x1234_5678);
}

#[test]
fn base63_of_sixteen_bytes() {
    assert_eq!(base63_encode(&[0xFF; 16]), "dvwPvd72dll4z8T1LzZWJf");
}

#[test]
fn base63_stops_at_25_characters() {
    let text = base63_encode(&[0xFF; 40]);
    assert_eq!(text, "dxIVRSJ_W5OabQBwHHTT7wgQ9");
    assert_eq!(text.len(), 25);
}
