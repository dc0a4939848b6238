use rfs_core::ids::{FSId, StorageId, UserId};
use rfs_core::path::{join, physical_path};
use rfs_core::text::{characters, contains, parse_u64, render_i64, render_u64};

#[test]
fn renders_unsigned_numbers_in_decimal() {
    assert_eq!(render_u64(0), "0");
    assert_eq!(render_u64(7), "7");
    assert_eq!(render_u64(10), "10");
    assert_eq!(render_u64(1_700_000_000), "1700000000");
    assert_eq!(render_u64(u64::MAX), "18446744073709551615");
}

#[test]
fn renders_signed_numbers_in_decimal() {
    assert_eq!(render_i64(0), "0");
    assert_eq!(render_i64(42), "42");
    assert_eq!(render_i64(-5), "-5");
    assert_eq!(render_i64(i64::MAX), "9223372036854775807");
    assert_eq!(render_i64(i64::MIN), "-9223372036854775808");
}

#[test]
fn parses_decimal_digits() {
    assert_eq!(parse_u64("0"), Some(0));
    assert_eq!(parse_u64("007"), Some(7));
    assert_eq!(parse_u64("1052673"), Some(1_052_673));
    assert_eq!(parse_u64("18446744073709551615"), Some(u64::MAX));
}

#[test]
fn refuses_what_is_no_number() {
    assert_eq!(parse_u64(""), None);
    assert_eq!(parse_u64("12a"), None);
    assert_eq!(parse_u64("-1"), None);
    assert_eq!(parse_u64("+1"), None);
    assert_eq!(parse_u64(" 1"), None);
    assert_eq!(parse_u64("18446744073709551616"), None);
    assert_eq!(parse_u64("99999999999999999999999"), None);
}

#[test]
fn parse_reads_back_what_render_wrote() {
    for n in [0u64, 1, 9, 10, 99, 100, 12345, u64::MAX - 1, u64::MAX] {
        assert_eq!(parse_u64(render_u64(n).as_str()), Some(n));
    }
}

#[test]
fn identifiers_keep_their_number() {
    assert_eq!(UserId::new(7).id(), 7);
    assert_eq!(StorageId::new(8).id(), 8);
    assert_eq!(FSId::new(9).id(), 9);
}

#[test]
fn identifiers_round_trip_through_text() {
    let id = FSId::new(1_052_673);
    assert_eq!(id.to_text(), "1052673");
    assert_eq!(FSId::from_text("1052673"), Some(id));
    assert_eq!(UserId::from_text(UserId::new(0).to_text().as_str()), Some(UserId::new(0)));
    assert_eq!(
        StorageId::from_text(StorageId::new(i64::MAX).to_text().as_str()),
        Some(StorageId::new(i64::MAX))
    );
}

#[test]
fn identifier_text_must_be_digits_that_fit() {
    assert_eq!(FSId::from_text(""), None);
    assert_eq!(FSId::from_text("-1"), None);
    assert_eq!(FSId::from_text("12x"), None);
    assert_eq!(FSId::from_text("9223372036854775808"), None);
    assert_eq!(StorageId::from_text("9223372036854775807"), Some(StorageId::new(i64::MAX)));
    assert_eq!(UserId::new(-3).to_text(), "-3");
    assert_eq!(UserId::from_text("-3"), None);
}

#[test]
fn join_puts_one_separator_between() {
    assert_eq!(join("", "a"), "a");
    assert_eq!(join("a", "b"), "a/b");
    assert_eq!(join("a/", "b"), "a/b");
    assert_eq!(join("a/b", "c"), "a/b/c");
    assert_eq!(join("", ""), "");
    assert_eq!(join("a", ""), "a/");
}

#[test]
fn join_lets_an_absolute_name_replace_the_base() {
    assert_eq!(join("a/b", "/c"), "/c");
    assert_eq!(join("", "/c"), "/c");
    assert_eq!(join("/", "c"), "/c");
}

#[test]
fn join_agrees_with_the_standard_path_type() {
    let cases = [("", "a"), ("a", "b"), ("a/", "b"), ("a", "/b"), ("a", ""), ("/x/y", "z.txt")];
    for (base, name) in cases {
        let expected = std::path::Path::new(base).join(name);
        assert_eq!(join(base, name), expected.to_str().unwrap());
    }
}

#[test]
fn physical_path_is_root_then_path_then_basename() {
    assert_eq!(physical_path("/srv/data", "", "docs"), "/srv/data/docs");
    assert_eq!(physical_path("/srv/data", "docs", "img"), "/srv/data/docs/img");
    assert_eq!(physical_path("/srv/data/", "docs/img", "a"), "/srv/data/docs/img/a");
}

#[test]
fn contains_finds_a_text_inside_another() {
    assert!(contains("text/html,application/xhtml+xml", "text/html"));
    assert!(contains("application/json, text/html;q=0.9", "text/html"));
    assert!(contains("abc", "abc"));
    assert!(contains("abc", "c"));
    assert!(contains("abc", ""));
    assert!(contains("", ""));
    assert!(!contains("application/json", "text/html"));
    assert!(!contains("text/htm", "text/html"));
    assert!(!contains("", "a"));
    assert!(!contains("ab", "abc"));
    assert!(!contains("aab", "aba"));
    assert!(contains("aaab", "aab"));
}

#[test]
fn characters_are_listed_one_by_one() {
    assert_eq!(characters("a/b"), vec!['a', '/', 'b']);
    assert_eq!(characters(""), Vec::<char>::new());
    assert_eq!(characters("é✓"), vec!['é', '✓']);
}
