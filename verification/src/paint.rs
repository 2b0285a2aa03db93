//! Colors and effects, as a terminal takes them.
use owo_colors::{OwoColorize, Style};
use vstd::prelude::*;

verus! {

/// The text between two escape sequences.
pub open spec fn between(before: Seq<char>, text: Seq<char>, after: Seq<char>) -> Seq<char> {
    before + text + after
}

/// The text in red.
pub open spec fn in_red(text: Seq<char>) -> Seq<char> {
    between("\x1b[31m"@, text, "\x1b[39m"@)
}

/// The text in green.
pub open spec fn in_green(text: Seq<char>) -> Seq<char> {
    between("\x1b[32m"@, text, "\x1b[39m"@)
}

/// The text in blue.
pub open spec fn in_blue(text: Seq<char>) -> Seq<char> {
    between("\x1b[34m"@, text, "\x1b[39m"@)
}

/// The text in blue on the usual background.
pub open spec fn in_blue_on_default(text: Seq<char>) -> Seq<char> {
    between("\x1b[34;49m"@, text, "\x1b[0m"@)
}

/// The text in bold.
pub open spec fn in_bold(text: Seq<char>) -> Seq<char> {
    between("\x1b[1m"@, text, "\x1b[0m"@)
}

/// The text dimmed.
pub open spec fn in_dim(text: Seq<char>) -> Seq<char> {
    between("\x1b[2m"@, text, "\x1b[0m"@)
}

/// The text in italics.
pub open spec fn in_italics(text: Seq<char>) -> Seq<char> {
    between("\x1b[3m"@, text, "\x1b[0m"@)
}

/// `OwoColorize::red`, shown: the text after the sequence for a red foreground and before that
/// for the usual one.
#[verifier::external_body]
pub(crate) fn red(text: &str) -> (s: String)
    ensures
        s@ == in_red(text@),
{
    text.red().to_string()
}

/// `OwoColorize::green`, shown: the text after the sequence for a green foreground and before
/// that for the usual one.
#[verifier::external_body]
pub(crate) fn green(text: &str) -> (s: String)
    ensures
        s@ == in_green(text@),
{
    text.green().to_string()
}

/// `OwoColorize::blue`, shown: the text after the sequence for a blue foreground and before that
/// for the usual one.
#[verifier::external_body]
pub(crate) fn blue(text: &str) -> (s: String)
    ensures
        s@ == in_blue(text@),
{
    text.blue().to_string()
}

/// `OwoColorize::style` with a style that is blue on the default color, shown: the text after the
/// one sequence for both and before that which resets everything.
#[verifier::external_body]
pub(crate) fn blue_on_default(text: &str) -> (s: String)
    ensures
        s@ == in_blue_on_default(text@),
{
    text.style(Style::new().blue().on_default_color()).to_string()
}

/// `OwoColorize::bold`, shown: the text after the sequence for bold and before that which resets
/// everything.
#[verifier::external_body]
pub(crate) fn bold(text: &str) -> (s: String)
    ensures
        s@ == in_bold(text@),
{
    text.bold().to_string()
}

/// `OwoColorize::dimmed`, shown: the text after the sequence for dimmed and before that which
/// resets everything.
#[verifier::external_body]
pub(crate) fn dimmed(text: &str) -> (s: String)
    ensures
        s@ == in_dim(text@),
{
    text.dimmed().to_string()
}

/// `OwoColorize::italic`, shown: the text after the sequence for italics and before that which
/// resets everything.
#[verifier::external_body]
pub(crate) fn italic(text: &str) -> (s: String)
    ensures
        s@ == in_italics(text@),
{
    text.italic().to_string()
}

/// A color of a level.
#[derive(Clone, Copy, Debug, PartialEq, Eq, Structural)]
pub enum Color {
    Purple,
    Blue,
    Green,
    Yellow,
    Red,
}

/// The sequence that a color begins with.
pub open spec fn color_start(color: Color) -> Seq<char> {
    match color {
        Color::Purple => "\x1b[35m"@,
        Color::Blue => "\x1b[34m"@,
        Color::Green => "\x1b[32m"@,
        Color::Yellow => "\x1b[33m"@,
        Color::Red => "\x1b[31m"@,
    }
}

/// The text in the style that has this color and nothing else.
pub open spec fn in_style(color: Color, text: Seq<char>) -> Seq<char> {
    between(color_start(color), text, "\x1b[0m"@)
}

/// `OwoColorize::style` with a style that has one color and nothing else, shown: the text after
/// the sequence for the color and before that which resets everything.
#[verifier::external_body]
pub(crate) fn styled(color: Color, text: &str) -> (s: String)
    ensures
        s@ == in_style(color, text@),
{
    let style = match color {
        Color::Purple => Style::new().purple(),
        Color::Blue => Style::new().blue(),
        Color::Green => Style::new().green(),
        Color::Yellow => Style::new().yellow(),
        Color::Red => Style::new().red(),
    };
    text.style(style).to_string()
}

} // verus!
