//! Terminal colouring, delegated to the `colored` crate.
//!
//! Whether `colored` actually emits escape sequences depends on the process
//! environment (overrides, `NO_COLOR`, whether standard output is a
//! terminal), so the wrappers only promise that the result is the input
//! either unchanged or wrapped in the colour's escape sequence.

use colored::Colorize;
use vstd::prelude::*;

verus! {

/// The ANSI reset sequence that ends a coloured span.
pub open spec fn reset_seq() -> Seq<char> {
    seq!['\u{1b}', '[', '0', 'm']
}

/// The foreground colour code `colored` uses for yellow.
pub open spec fn yellow_code() -> Seq<char> {
    seq!['3', '3']
}

/// The foreground colour code `colored` uses for bright green.
pub open spec fn bright_green_code() -> Seq<char> {
    seq!['9', '2']
}

/// `src` wrapped in the escape sequence for the given colour code.
pub open spec fn esc_wrap(code: Seq<char>, src: Seq<char>) -> Seq<char> {
    seq!['\u{1b}', '['] + code + seq!['m'] + src + reset_seq()
}

/// True when the text contains the ANSI reset sequence. `colored` re-opens
/// the colour span after each embedded reset, so nothing simple is promised
/// for such inputs.
pub open spec fn has_reset(s: Seq<char>) -> bool {
    exists|i: int| 0 <= i && i + 4 <= s.len() && #[trigger] s.subrange(i, i + 4) == reset_seq()
}

/// How a piece of text looks after being coloured: unchanged when colouring
/// is off, or wrapped in the colour's escape sequence; nothing is said of
/// text that already holds a reset sequence.
pub open spec fn painted(line: Seq<char>, code: Seq<char>, src: Seq<char>) -> bool {
    has_reset(src) || line == src || line == esc_wrap(code, src)
}

/// Relies on `colored::Colorize::yellow` and the `Display` impl of
/// `ColoredString`: when colouring is disabled the input is returned
/// unchanged; otherwise it is wrapped as `ESC [ 33 m … ESC [ 0 m`.
#[verifier::external_body]
pub(crate) fn paint_yellow(s: &str) -> (r: String)
    ensures
        painted(r@, yellow_code(), s@),
{
    s.yellow().to_string()
}

/// Relies on `colored::Colorize::bright_green` and the `Display` impl of
/// `ColoredString`: when colouring is disabled the input is returned
/// unchanged; otherwise it is wrapped as `ESC [ 92 m … ESC [ 0 m`.
#[verifier::external_body]
pub(crate) fn paint_bright_green(s: &str) -> (r: String)
    ensures
        painted(r@, bright_green_code(), s@),
{
    s.bright_green().to_string()
}

} // verus!
