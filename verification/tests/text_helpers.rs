use ghcid_mcp::text::str_ends_with;
use ghcid_mcp::text::u64_to_dec;

#[test]
fn suffix_test_accepts_cabal_names() {
    assert!(str_ends_with("app.cabal", ".cabal"));
    assert!(str_ends_with(".cabal", ".cabal"));
    assert!(str_ends_with("my-project.cabal", ".cabal"));
}

#[test]
fn suffix_test_rejects_other_names() {
    assert!(!str_ends_with("cabal", ".cabal"));
    assert!(!str_ends_with("app.cabal.bak", ".cabal"));
    assert!(!str_ends_with("APP.CABAL", ".cabal"));
    assert!(!str_ends_with("", ".cabal"));
    assert!(!str_ends_with("cabal.project", ".cabal"));
}

#[test]
fn suffix_test_counts_characters_not_bytes() {
    assert!(str_ends_with("na\u{ef}ve.cabal", ".cabal"));
    assert!(str_ends_with("\u{65e5}\u{672c}.cabal", ".cabal"));
    assert!(!str_ends_with("x", "\u{65e5}\u{672c}"));
}

#[test]
fn decimal_rendering_matches_expected_digits() {
    assert_eq!(u64_to_dec(0), "0");
    assert_eq!(u64_to_dec(7), "7");
    assert_eq!(u64_to_dec(10), "10");
    assert_eq!(u64_to_dec(300), "300");
    assert_eq!(u64_to_dec(1234567890), "1234567890");
    assert_eq!(u64_to_dec(u64::MAX), "18446744073709551615");
}
