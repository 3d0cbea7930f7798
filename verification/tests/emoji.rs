use std::collections::hash_map::DefaultHasher;
use std::hash::Hash;
use std::hash::Hasher;

use emoji::Emoji;
use emoji::support::Platform;
use emoji::support::lang_declares_utf8;
use emoji::support::platform_supports_emoji;
use emoji::support::supports_emoji;

fn hash_of(e: &Emoji) -> u64 {
    let mut h = DefaultHasher::new();
    e.hash(&mut h);
    h.finish()
}

#[test]
fn render_with_yields_glyph_or_fallback() {
    let e = Emoji::new("\u{2728}", "*");
    assert_eq!(e.render_with(true), "\u{2728}");
    assert_eq!(e.render_with(false), "*");
}

#[test]
fn render_yields_one_of_the_two_fields() {
    let e = Emoji::new("\u{2728}", "*");
    let r = e.render();
    assert!(r == "\u{2728}" || r == "*");
}

#[test]
fn non_interactive_always_renders_fallback() {
    let e = Emoji::new("\u{1F389}", ":tada:");
    assert_eq!(e.render_on(false, Platform::MacOs, Some("en_US.UTF-8"), true), ":tada:");
    assert_eq!(e.render_on(false, Platform::UnixLike, Some("en_US.UTF-8"), true), ":tada:");
    assert_eq!(e.render_on(false, Platform::Windows, Some("en_US.UTF-8"), true), ":tada:");
    assert_eq!(e.render_on(false, Platform::Other, None, false), ":tada:");
}

#[test]
fn always_supported_platform_renders_glyph() {
    let e = Emoji::new("\u{1F389}", ":tada:");
    assert_eq!(e.render_on(true, Platform::MacOs, None, false), "\u{1F389}");
    assert_eq!(e.render_on(true, Platform::MacOs, Some("C"), false), "\u{1F389}");
}

#[test]
fn locale_heuristic_utf8_renders_glyph() {
    let e = Emoji::new("\u{1F980}", "crab");
    assert_eq!(e.render_on(true, Platform::UnixLike, Some("en_US.UTF-8"), false), "\u{1F980}");
}

#[test]
fn locale_heuristic_non_utf8_renders_fallback() {
    let e = Emoji::new("\u{1F980}", "crab");
    assert_eq!(e.render_on(true, Platform::UnixLike, Some("en_US.ISO-8859-1"), false), "crab");
    assert_eq!(e.render_on(true, Platform::UnixLike, None, false), "crab");
}

#[test]
fn marker_heuristic_presence_decides() {
    let e = Emoji::new("\u{1F680}", ">>");
    assert_eq!(e.render_on(true, Platform::Windows, None, true), "\u{1F680}");
    assert_eq!(e.render_on(true, Platform::Windows, None, false), ">>");
}

#[test]
fn unknown_platform_renders_fallback() {
    let e = Emoji::new("\u{1F680}", ">>");
    assert_eq!(e.render_on(true, Platform::Other, Some("en_US.UTF-8"), true), ">>");
}

#[test]
fn sparkles_with_c_utf8_locale() {
    let e = Emoji::new("\u{2728}", "*");
    assert_eq!(e.render_on(true, Platform::UnixLike, Some("C.UTF-8"), false), "\u{2728}");
    assert_eq!(e.render_on(true, Platform::UnixLike, Some("C"), false), "*");
}

#[test]
fn lang_suffix_check_is_case_insensitive() {
    assert!(lang_declares_utf8("en_US.UTF-8"));
    assert!(lang_declares_utf8("en_US.utf-8"));
    assert!(lang_declares_utf8("de_DE.Utf-8"));
    assert!(lang_declares_utf8("C.UTF-8"));
    assert!(!lang_declares_utf8("en_US.UTF8"));
    assert!(!lang_declares_utf8("en_US.ISO-8859-1"));
    assert!(!lang_declares_utf8("C"));
    assert!(!lang_declares_utf8(""));
    assert!(!lang_declares_utf8("UTF-"));
}

#[test]
fn platform_heuristic_alone() {
    assert!(platform_supports_emoji(Platform::MacOs, None, false));
    assert!(platform_supports_emoji(Platform::UnixLike, Some("fr_FR.UTF-8"), false));
    assert!(!platform_supports_emoji(Platform::UnixLike, Some("fr_FR"), true));
    assert!(!platform_supports_emoji(Platform::UnixLike, None, true));
    assert!(platform_supports_emoji(Platform::Windows, None, true));
    assert!(!platform_supports_emoji(Platform::Windows, Some("en_US.UTF-8"), false));
    assert!(!platform_supports_emoji(Platform::Other, Some("en_US.UTF-8"), true));
}

#[test]
fn capability_check_needs_both_halves() {
    assert!(supports_emoji(true, Platform::MacOs, None, false));
    assert!(!supports_emoji(false, Platform::MacOs, None, false));
    assert!(supports_emoji(true, Platform::Windows, None, true));
    assert!(!supports_emoji(true, Platform::Windows, None, false));
}

#[test]
fn equal_pairs_compare_equal_and_hash_identically() {
    let a = Emoji::new("\u{2728}", "*");
    let b = Emoji::new("\u{2728}", "*");
    assert_eq!(a, b);
    assert_eq!(hash_of(&a), hash_of(&b));
}

#[test]
fn differing_in_either_field_makes_unequal() {
    let a = Emoji::new("\u{2728}", "*");
    assert_ne!(a, Emoji::new("\u{1F389}", "*"));
    assert_ne!(a, Emoji::new("\u{2728}", "+"));
}

#[test]
fn from_tuple_matches_new() {
    let a = Emoji::from(("\u{2728}", "*"));
    let b = Emoji::new("\u{2728}", "*");
    assert_eq!(a, b);
    assert_eq!(a.0, "\u{2728}");
    assert_eq!(a.1, "*");
}
