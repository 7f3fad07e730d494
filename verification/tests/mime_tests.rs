use file_storage::mime::{find_slash, is_wildcard_pattern, pattern_admits, same_base, split_mime};
use file_storage::models::{ByteRange, OwnerKind, VersionStatus};
use file_storage::policy::PolicyResolver;
use file_storage::text::{eq_ignore_ascii_case, i64_decimal, join, trim_char, trim_end_char, u64_decimal};

#[test]
fn mime_splitting() {
    assert_eq!(split_mime("image/jpeg"), ("image", Some("jpeg")));
    assert_eq!(split_mime("image"), ("image", None));
    assert_eq!(PolicyResolver::split_mime("a/b/c"), ("a", Some("b/c")));
    assert_eq!(find_slash("ab/c"), Some(2));
    assert_eq!(find_slash("abc"), None);
}

#[test]
fn wildcard_patterns() {
    assert!(is_wildcard_pattern("image/*"));
    assert!(!is_wildcard_pattern("image"));
    assert!(!is_wildcard_pattern("image/png"));
    assert!(same_base("image/*", "image/png"));
    assert!(!same_base("image/*", "video/mp4"));
    assert!(pattern_admits("image/*", "image/png"));
    assert!(pattern_admits("image/png", "image/png"));
    assert!(!pattern_admits("image", "image/png"));
    assert!(PolicyResolver::mime_matches("image/*", "image/gif"));
    assert!(PolicyResolver::mime_matches("image/gif", "image/*"));
    assert!(!PolicyResolver::mime_matches("image/gif", "image/png"));
}

#[test]
fn intersection_admits_what_both_admit() {
    let ep = PolicyResolver::merge_allowed_mimes(
        Some(&vec!["image/*".to_owned(), "text/plain".to_owned()]),
        Some(&vec!["image/png".to_owned(), "text/*".to_owned()]),
    )
    .expect("restricted");
    assert!(PolicyResolver::mime_allowed("image/png", &ep));
    assert!(PolicyResolver::mime_allowed("text/plain", &ep));
    assert!(!PolicyResolver::mime_allowed("image/gif", &ep));
    assert!(!PolicyResolver::mime_allowed("text/html", &ep));
}

#[test]
fn limit_merging() {
    assert_eq!(PolicyResolver::min_option(Some(3), Some(2)), Some(2));
    assert_eq!(PolicyResolver::min_option(None, Some(2)), Some(2));
    assert_eq!(PolicyResolver::min_option(None, None), None);
    assert_eq!(PolicyResolver::min_option_u32(Some(3), None), Some(3));
}

#[test]
fn text_helpers() {
    assert_eq!(u64_decimal(0), "0");
    assert_eq!(u64_decimal(u64::MAX), "18446744073709551615");
    assert_eq!(i64_decimal(i64::MIN), "-9223372036854775808");
    assert_eq!(trim_char("\"\"x\"", '"'), "x");
    assert_eq!(trim_end_char("http://a//", '/'), "http://a");
    assert!(eq_ignore_ascii_case("SHA256:AB", "sha256:ab"));
    assert!(!eq_ignore_ascii_case("a", "ab"));
    assert_eq!(join(&vec!["a".to_owned(), "b".to_owned()], ", "), "a, b");
}

#[test]
fn model_spellings_and_ranges() {
    assert_eq!(OwnerKind::parse("user"), Some(OwnerKind::User));
    assert_eq!(OwnerKind::parse(OwnerKind::App.as_str()), Some(OwnerKind::App));
    assert_eq!(OwnerKind::parse("admin"), None);
    assert_eq!(VersionStatus::parse("available"), Some(VersionStatus::Available));
    assert_eq!(VersionStatus::Pending.as_str(), "pending");
    assert_eq!(ByteRange::Inclusive { start: 2, end: 100 }.resolve(10), Some((2, 9)));
    assert_eq!(ByteRange::Inclusive { start: 5, end: 2 }.resolve(10), None);
    assert_eq!(ByteRange::Suffix { length: 0 }.resolve(10), None);
    assert_eq!(ByteRange::Suffix { length: 50 }.resolve(10), Some((0, 9)));
    assert_eq!(ByteRange::OpenEnded { start: 10 }.resolve(10), None);
    assert_eq!(ByteRange::OpenEnded { start: 0 }.resolve(0), None);
}
