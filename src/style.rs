//! Highlighted text for the terminal.

use colored::{ColoredString, Colorize};
use vstd::prelude::*;

verus! {

#[verifier::external_type_specification]
#[verifier::external_body]
pub struct ExColoredString(ColoredString);

/// The highlighted form of a text.
pub uninterp spec fn yellow_of(s: Seq<char>) -> ColoredString;

/// Highlights `msg` for the terminal.
///
/// Relies on colored's `Colorize::yellow` for `&str`: it keeps the text as it
/// is and sets the foreground colour to yellow, so the result depends on the
/// text alone.
#[verifier::external_body]
pub fn highlight(msg: &str) -> (r: ColoredString)
    ensures
        r == yellow_of(msg@),
{
    msg.yellow()
}

} // verus!
