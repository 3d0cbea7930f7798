//! An emoji with a plain-text safety fallback.
//!
//! The [`Emoji`] type wraps an emoji glyph together with a fallback string and
//! only renders the glyph when the running platform is believed to display it:
//! standard output must be an interactive terminal, and a platform-dependent
//! heuristic must hold (macOS always supports emoji, Unix-like systems when the
//! locale declares a UTF-8 encoding, Windows when the new-terminal marker
//! variable is set). On every other platform the fallback is rendered.

use vstd::prelude::*;
use vstd::string::StrSliceExecFns;

pub mod laws;
pub mod support;
mod term;

verus! {

/// Whether two strings hold the same characters.
fn str_eq(a: &str, b: &str) -> (r: bool)
    ensures
        r == (a@ == b@),
{
    let n: usize = a.unicode_len();
    if n != b.unicode_len() {
        return false;
    }
    let mut i: usize = 0;
    while i < n
        invariant
            n == a@.len(),
            n == b@.len(),
            i <= n,
            forall|j: int| 0 <= j < i ==> a@[j] == b@[j],
        decreases n - i,
    {
        if a.get_char(i) != b.get_char(i) {
            return false;
        }
        i = i + 1;
    }
    proof {
        assert(a@ =~= b@);
    }
    true
}

/// An emoji with safety fallback: the glyph to display where supported, and
/// the plain-text substitute for everywhere else.
#[derive(Clone, Copy, Debug, Eq, Hash)]
pub struct Emoji<'a>(pub &'a str, pub &'a str);

impl<'a> Emoji<'a> {
    /// Create a new emoji from the glyph and its plain-text fallback.
    pub fn new(emoji: &'a str, fallback: &'a str) -> (e: Self)
        ensures
            e.0 == emoji,
            e.1 == fallback,
    {
        Emoji(emoji, fallback)
    }

    /// The text that rendering yields for a given answer of the capability
    /// check: the glyph where emoji are supported, the fallback otherwise.
    pub open spec fn chosen(self, support: bool) -> Seq<char> {
        if support {
            self.0@
        } else {
            self.1@
        }
    }

    /// Render for a known answer of the capability check.
    pub fn render_with(&self, support: bool) -> (r: &'a str)
        ensures
            r@ == self.chosen(support),
            r@ == self.0@ || r@ == self.1@,
    {
        if support {
            self.0
        } else {
            self.1
        }
    }

    /// Render the emoji for the current process: the glyph when standard
    /// output is an interactive terminal that is believed to display emoji,
    /// the fallback otherwise. The capability check reads the process
    /// environment, so only the choice between the two fields is pinned down.
    pub fn render(&self) -> (r: &'a str)
        ensures
            r@ == self.0@ || r@ == self.1@,
    {
        let support = crate::term::stdout_supports_emoji();
        self.render_with(support)
    }

    /// Render the emoji for an explicitly modeled environment: the platform
    /// family, the locale value, the presence of the new-terminal marker and
    /// the interactivity of the output stream are all passed in, and the
    /// rendered text follows the capability check exactly.
    pub fn render_on(
        &self,
        interactive: bool,
        platform: crate::support::Platform,
        lang: Option<&str>,
        marker_present: bool,
    ) -> (r: &'a str)
        ensures
            r@ == self.chosen(
                crate::support::spec_supports_emoji(
                    interactive,
                    platform,
                    crate::support::lang_view(lang),
                    marker_present,
                ),
            ),
    {
        let support = crate::support::supports_emoji(interactive, platform, lang, marker_present);
        self.render_with(support)
    }
}

impl<'a> PartialEq for Emoji<'a> {
    /// Structural equality: two values are equal when both the glyph and the
    /// fallback hold the same characters.
    fn eq(&self, other: &Self) -> (r: bool) {
        str_eq(self.0, other.0) && str_eq(self.1, other.1)
    }
}

impl<'a> vstd::std_specs::cmp::PartialEqSpecImpl for Emoji<'a> {
    open spec fn obeys_eq_spec() -> bool {
        true
    }

    open spec fn eq_spec(&self, other: &Emoji<'a>) -> bool {
        self.0@ == other.0@ && self.1@ == other.1@
    }
}

impl<'a> From<(&'a str, &'a str)> for Emoji<'a> {
    /// Build an emoji from a `(glyph, fallback)` pair.
    fn from(v: (&'a str, &'a str)) -> (e: Self) {
        Emoji(v.0, v.1)
    }
}

impl<'a> vstd::std_specs::convert::FromSpecImpl<(&'a str, &'a str)> for Emoji<'a> {
    open spec fn obeys_from_spec() -> bool {
        true
    }

    open spec fn from_spec(v: (&'a str, &'a str)) -> Emoji<'a> {
        Emoji(v.0, v.1)
    }
}

} // verus!
