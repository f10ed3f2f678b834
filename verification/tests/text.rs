use ram::text::{at_or_before, bytes_at_or_before, day, within, DAY_CHARS};

#[test]
fn a_day_has_ten_characters() {
    assert_eq!(DAY_CHARS, 10);
}

#[test]
fn bytes_are_compared_in_lexicographic_order() {
    assert!(bytes_at_or_before(b"", b""));
    assert!(bytes_at_or_before(b"", b"a"));
    assert!(!bytes_at_or_before(b"a", b""));
    assert!(bytes_at_or_before(b"abc", b"abc"));
    assert!(bytes_at_or_before(b"abc", b"abd"));
    assert!(!bytes_at_or_before(b"abd", b"abc"));
    assert!(bytes_at_or_before(b"ab", b"abc"));
    assert!(!bytes_at_or_before(b"abc", b"ab"));
    assert!(bytes_at_or_before(b"a\x7f", b"a\x80"));
    assert!(!bytes_at_or_before(b"\xff", b"\x00\xff"));
}

#[test]
fn timestamps_are_ordered_as_their_moments() {
    assert!(at_or_before("2024-03-01T00:00:00Z", "2024-03-01T00:00:00Z"));
    assert!(at_or_before("2024-03-01T00:00:00Z", "2024-03-01T00:00:01Z"));
    assert!(at_or_before("2023-12-31T23:59:59Z", "2024-01-01T00:00:00Z"));
    assert!(!at_or_before("2024-01-01T00:00:00Z", "2023-12-31T23:59:59Z"));
    assert!(at_or_before("2024-03-01", "2024-03-01T00:00:00Z"));
    assert!(!at_or_before("2024-03-02", "2024-03-01T23:59:59Z"));
}

#[test]
fn text_beyond_ascii_is_ordered_by_its_bytes() {
    assert!(at_or_before("z", "\u{e9}"));
    assert!(at_or_before("\u{e9}", "\u{4e2d}"));
    assert!(!at_or_before("\u{1F980}", "\u{4e2d}"));
}

#[test]
fn within_includes_the_start_and_excludes_the_end() {
    let from = "2024-03-01T00:00:00Z";
    let to = "2024-04-01T00:00:00Z";
    assert!(within("2024-03-01T00:00:00Z", from, Some(to)));
    assert!(within("2024-03-31T23:59:59Z", from, Some(to)));
    assert!(!within("2024-04-01T00:00:00Z", from, Some(to)));
    assert!(!within("2024-02-29T23:59:59Z", from, Some(to)));
    assert!(!within("2024-03-01T00:00:00Z", from, Some(from)));
}

#[test]
fn within_has_no_end_where_none_is_given() {
    assert!(within("9999-12-31T23:59:59Z", "2024-03-01T00:00:00Z", None));
    assert!(within("2024-03-01T00:00:00Z", "2024-03-01T00:00:00Z", None));
    assert!(!within("2024-02-29T23:59:59Z", "2024-03-01T00:00:00Z", None));
}

#[test]
fn day_is_the_first_ten_characters() {
    assert_eq!(day("2024-03-09T23:59:59Z"), "2024-03-09");
    assert_eq!(day("2024-03-09"), "2024-03-09");
    assert_eq!(day("2024-03"), "2024-03");
    assert_eq!(day(""), "");
    assert_eq!(day("\u{4e2d}\u{4e2d}\u{4e2d}\u{4e2d}\u{4e2d}\u{4e2d}\u{4e2d}\u{4e2d}\u{4e2d}\u{4e2d}\u{4e2d}").chars().count(), 10);
}
