//! Moving about on a terminal.
use vstd::prelude::*;

verus! {

/// The sequence that clears the current line.
pub open spec fn line_cleared() -> Seq<char> {
    "\x1b[2K"@
}

/// The sequence that moves the cursor one line up.
pub open spec fn one_line_up() -> Seq<char> {
    "\x1b[1A"@
}

/// `termion::clear::CurrentLine`, shown: the sequence that clears the current line.
#[verifier::external_body]
pub(crate) fn clear_line() -> (s: String)
    ensures
        s@ == line_cleared(),
{
    termion::clear::CurrentLine.to_string()
}

/// `termion::cursor::Up(1)`, shown: the sequence that moves the cursor one line up.
#[verifier::external_body]
pub(crate) fn line_up() -> (s: String)
    ensures
        s@ == one_line_up(),
{
    termion::cursor::Up(1).to_string()
}

/// A text cut to a number of columns, with a tail where something was cut off.
pub uninterp spec fn fitted(text: Seq<char>, columns: nat, tail: Seq<char>) -> Seq<char>;

/// `console::truncate_str`: the text cut to a number of columns, its escape sequences left whole,
/// with the tail where something was cut off. How wide a character is, is not said here.
#[verifier::external_body]
pub(crate) fn fit(text: &str, columns: usize, tail: &str) -> (s: String)
    ensures
        s@ == fitted(text@, columns as nat, tail@),
{
    console::truncate_str(text, columns, tail).to_string()
}

} // verus!
