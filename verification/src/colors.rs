//! Colours for texts that are shown on a terminal.

use owo_colors::OwoColorize;
use vstd::prelude::*;

verus! {

/// The text `text` in red: between the escape sequence that sets the
/// foreground colour to red and the one that resets it.
pub open spec fn red_text(text: Seq<char>) -> Seq<char> {
    "\x1b[31m"@ + text + "\x1b[39m"@
}

/// The text `text` in green.
pub open spec fn green_text(text: Seq<char>) -> Seq<char> {
    "\x1b[32m"@ + text + "\x1b[39m"@
}

/// The text `text` in yellow.
pub open spec fn yellow_text(text: Seq<char>) -> Seq<char> {
    "\x1b[33m"@ + text + "\x1b[39m"@
}

/// `OwoColorize::red` of `owo_colors`, shown with `Display`: the escape
/// sequence for a red foreground, the text, and the escape sequence that
/// resets the foreground.
#[verifier::external_body]
pub(crate) fn red(text: &str) -> (r: String)
    ensures
        r@ == red_text(text@),
{
    format!("{}", text.red())
}

/// `OwoColorize::green` of `owo_colors`, shown with `Display`: the escape
/// sequence for a green foreground, the text, and the escape sequence that
/// resets the foreground.
#[verifier::external_body]
pub(crate) fn green(text: &str) -> (r: String)
    ensures
        r@ == green_text(text@),
{
    format!("{}", text.green())
}

/// `OwoColorize::yellow` of `owo_colors`, shown with `Display`: the escape
/// sequence for a yellow foreground, the text, and the escape sequence that
/// resets the foreground.
#[verifier::external_body]
pub(crate) fn yellow(text: &str) -> (r: String)
    ensures
        r@ == yellow_text(text@),
{
    format!("{}", text.yellow())
}

} // verus!
