//! What colors and effects look like to a terminal.
use crate::paint::{
    in_blue, in_blue_on_default, in_bold, in_dim, in_green, in_italics, in_red, in_style, Color,
};
use vstd::prelude::*;

verus! {

/// A text that is painted stands whole between the sequence that turns the paint on and the one
/// that turns it off.
pub proof fn paint_stands_around_the_text(text: Seq<char>)
    ensures
        in_red(text) == "\x1b[31m"@ + text + "\x1b[39m"@,
        in_green(text) == "\x1b[32m"@ + text + "\x1b[39m"@,
        in_blue(text) == "\x1b[34m"@ + text + "\x1b[39m"@,
        in_blue_on_default(text) == "\x1b[34;49m"@ + text + "\x1b[0m"@,
        in_bold(text) == "\x1b[1m"@ + text + "\x1b[0m"@,
        in_dim(text) == "\x1b[2m"@ + text + "\x1b[0m"@,
        in_italics(text) == "\x1b[3m"@ + text + "\x1b[0m"@,
        in_style(Color::Purple, text) == "\x1b[35m"@ + text + "\x1b[0m"@,
        in_style(Color::Blue, text) == "\x1b[34m"@ + text + "\x1b[0m"@,
        in_style(Color::Green, text) == "\x1b[32m"@ + text + "\x1b[0m"@,
        in_style(Color::Yellow, text) == "\x1b[33m"@ + text + "\x1b[0m"@,
        in_style(Color::Red, text) == "\x1b[31m"@ + text + "\x1b[0m"@,
{
}

} // verus!
