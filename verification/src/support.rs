//! The capability check: does the current platform and environment support
//! rendering emoji glyphs?
//!
//! The decision is a pure predicate over plain inputs: the platform family,
//! the value of the locale variable (`LANG`), whether the new-terminal marker
//! variable (`WT_SESSION`) is set, and whether standard output is an
//! interactive terminal. Reading those inputs from the process environment is
//! left to callers; everything here is verified logic.

use vstd::prelude::*;
use vstd::string::StrSliceExecFns;

verus! {

/// The platform families that the support heuristic distinguishes.
#[derive(Clone, Copy, Debug, PartialEq, Eq, Structural)]
pub enum Platform {
    /// macOS: emoji support is assumed unconditionally.
    MacOs,
    /// Unix-like systems other than macOS: support is read off the locale.
    UnixLike,
    /// Windows: support is tied to the new-terminal marker variable.
    Windows,
    /// Anything else: no emoji support is assumed.
    Other,
}

/// Whether a locale value declares a UTF-8 encoding: its last five characters
/// spell the marker `UTF-8`, letters in either case.
pub open spec fn declares_utf8(lang: Seq<char>) -> bool {
    &&& lang.len() >= 5
    &&& (lang[lang.len() - 5] == 'U' || lang[lang.len() - 5] == 'u')
    &&& (lang[lang.len() - 4] == 'T' || lang[lang.len() - 4] == 't')
    &&& (lang[lang.len() - 3] == 'F' || lang[lang.len() - 3] == 'f')
    &&& lang[lang.len() - 2] == '-'
    &&& lang[lang.len() - 1] == '8'
}

/// Whether a locale value, if one is set at all, declares a UTF-8 encoding.
/// An unset locale fails closed: no emoji support is assumed.
pub open spec fn locale_supports_emoji(lang: Option<Seq<char>>) -> bool {
    match lang {
        Some(l) => declares_utf8(l),
        None => false,
    }
}

/// The platform-dependent half of the capability check.
pub open spec fn spec_platform_supports_emoji(
    platform: Platform,
    lang: Option<Seq<char>>,
    marker_present: bool,
) -> bool {
    match platform {
        Platform::MacOs => true,
        Platform::UnixLike => locale_supports_emoji(lang),
        Platform::Windows => marker_present,
        Platform::Other => false,
    }
}

/// The whole capability check: emoji are rendered only on an interactive
/// terminal whose platform heuristic holds.
pub open spec fn spec_supports_emoji(
    interactive: bool,
    platform: Platform,
    lang: Option<Seq<char>>,
    marker_present: bool,
) -> bool {
    interactive && spec_platform_supports_emoji(platform, lang, marker_present)
}

/// The view of an optional locale value as an optional character sequence.
pub open spec fn lang_view(lang: Option<&str>) -> Option<Seq<char>> {
    match lang {
        Some(l) => Some(l@),
        None => None,
    }
}

/// Does this locale value end in the UTF-8 encoding marker, compared without
/// regard to letter case?
pub fn lang_declares_utf8(lang: &str) -> (r: bool)
    ensures
        r == declares_utf8(lang@),
{
    let n: usize = lang.unicode_len();
    if n < 5 {
        return false;
    }
    let c0 = lang.get_char(n - 5);
    let c1 = lang.get_char(n - 4);
    let c2 = lang.get_char(n - 3);
    let c3 = lang.get_char(n - 2);
    let c4 = lang.get_char(n - 1);
    (c0 == 'U' || c0 == 'u') && (c1 == 'T' || c1 == 't') && (c2 == 'F' || c2 == 'f') && c3 == '-'
        && c4 == '8'
}

/// The platform-dependent support heuristic, over the platform family, the
/// locale value (if set) and the presence of the new-terminal marker.
pub fn platform_supports_emoji(
    platform: Platform,
    lang: Option<&str>,
    marker_present: bool,
) -> (r: bool)
    ensures
        r == spec_platform_supports_emoji(platform, lang_view(lang), marker_present),
{
    match platform {
        Platform::MacOs => true,
        Platform::UnixLike => match lang {
            Some(l) => lang_declares_utf8(l),
            None => false,
        },
        Platform::Windows => marker_present,
        Platform::Other => false,
    }
}

/// The capability check as one operation: emoji are rendered only when output
/// is interactive and the platform heuristic holds.
pub fn supports_emoji(
    interactive: bool,
    platform: Platform,
    lang: Option<&str>,
    marker_present: bool,
) -> (r: bool)
    ensures
        r == spec_supports_emoji(interactive, platform, lang_view(lang), marker_present),
{
    interactive && platform_supports_emoji(platform, lang, marker_present)
}

} // verus!
