//! The one read of the process environment: asking the `terminal_supports_emoji`
//! crate whether standard output can display emoji.

use vstd::prelude::*;

verus! {

/// Relies on `terminal_supports_emoji::supports_emoji`, asked about standard
/// output: it reports whether that stream is an interactive terminal on a
/// platform whose heuristic holds. The answer depends on the process
/// environment and the stream's terminal status, so nothing is promised of it;
/// callers state what holds of either outcome.
#[verifier::external_body]
pub(crate) fn stdout_supports_emoji() -> bool {
    terminal_supports_emoji::supports_emoji(terminal_supports_emoji::Stream::Stdout)
}

} // verus!
