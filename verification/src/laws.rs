//! The behavioural laws of the library, each proved once and for all inputs.

use vstd::prelude::*;
use vstd::std_specs::cmp::PartialEqSpec;

use crate::Emoji;
use crate::support::Platform;
use crate::support::declares_utf8;
use crate::support::locale_supports_emoji;
use crate::support::spec_supports_emoji;

verus! {

/// Rendering is total and never invents text: whatever the capability check
/// answers, the rendered text is exactly the glyph or exactly the fallback.
pub proof fn law_render_is_glyph_or_fallback(e: Emoji, support: bool)
    ensures
        e.chosen(support) == e.0@ || e.chosen(support) == e.1@,
{
}

/// When output is not an interactive terminal, rendering yields the fallback,
/// regardless of platform and environment.
pub proof fn law_non_interactive_renders_fallback(
    e: Emoji,
    platform: Platform,
    lang: Option<Seq<char>>,
    marker_present: bool,
)
    ensures
        e.chosen(spec_supports_emoji(false, platform, lang, marker_present)) == e.1@,
{
}

/// On a platform that always supports emoji, rendering to an interactive
/// terminal yields the glyph, regardless of the environment.
pub proof fn law_always_supported_renders_glyph(
    e: Emoji,
    lang: Option<Seq<char>>,
    marker_present: bool,
)
    ensures
        e.chosen(spec_supports_emoji(true, Platform::MacOs, lang, marker_present)) == e.0@,
{
}

/// Under the locale heuristic, rendering to an interactive terminal yields the
/// glyph exactly when a locale value is set and declares a UTF-8 encoding; an
/// unset or non-UTF-8 locale yields the fallback.
pub proof fn law_locale_heuristic(
    e: Emoji,
    lang: Option<Seq<char>>,
    marker_present: bool,
)
    ensures
        spec_supports_emoji(true, Platform::UnixLike, lang, marker_present)
            == locale_supports_emoji(lang),
        lang matches Some(l) && declares_utf8(l) ==> e.chosen(
            spec_supports_emoji(true, Platform::UnixLike, lang, marker_present),
        ) == e.0@,
        lang matches Some(l) && !declares_utf8(l) ==> e.chosen(
            spec_supports_emoji(true, Platform::UnixLike, lang, marker_present),
        ) == e.1@,
        lang is None ==> e.chosen(
            spec_supports_emoji(true, Platform::UnixLike, lang, marker_present),
        ) == e.1@,
{
}

/// Under the terminal-marker heuristic, rendering to an interactive terminal
/// yields the glyph exactly when the marker variable is present, whatever its
/// value; absence yields the fallback.
pub proof fn law_marker_heuristic(e: Emoji, lang: Option<Seq<char>>, marker_present: bool)
    ensures
        spec_supports_emoji(true, Platform::Windows, lang, marker_present) == marker_present,
        marker_present ==> e.chosen(
            spec_supports_emoji(true, Platform::Windows, lang, marker_present),
        ) == e.0@,
        !marker_present ==> e.chosen(
            spec_supports_emoji(true, Platform::Windows, lang, marker_present),
        ) == e.1@,
{
}

/// Equality is structural: two values compare equal exactly when both the
/// glyph and the fallback hold the same characters, so values built from
/// identical pairs are equal and a difference in either field makes them
/// unequal.
pub proof fn law_structural_equality(a: Emoji, b: Emoji)
    ensures
        a.eq_spec(&b) <==> (a.0@ == b.0@ && a.1@ == b.1@),
{
}

} // verus!
