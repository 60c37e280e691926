//! Colored text for the terminal.

use vstd::prelude::*;

verus! {

/// The colors that the program prints in.
#[derive(Clone, Copy, Debug, PartialEq, Eq, Structural)]
pub enum Color {
    Red,
    Green,
    Yellow,
    Purple,
    Cyan,
}

/// The digit that selects a foreground color in an escape sequence.
pub open spec fn color_digit(color: Color) -> char {
    match color {
        Color::Red => '1',
        Color::Green => '2',
        Color::Yellow => '3',
        Color::Purple => '5',
        Color::Cyan => '6',
    }
}

/// A text between the escape sequence that sets a foreground color and the
/// one that resets it.
pub open spec fn painted(color: Color, text: Seq<char>) -> Seq<char> {
    seq!['\x1b', '[', '3', color_digit(color), 'm'] + text + seq!['\x1b', '[', '0', 'm']
}

/// `ansi_term::Colour::paint`, written out as a string: the text between
/// the escape sequence of the foreground color and the reset sequence.
#[verifier::external_body]
pub(crate) fn paint(color: Color, text: &str) -> (colored: String)
    ensures
        colored@ == painted(color, text@),
{
    let colour = match color {
        Color::Red => ansi_term::Colour::Red,
        Color::Green => ansi_term::Colour::Green,
        Color::Yellow => ansi_term::Colour::Yellow,
        Color::Purple => ansi_term::Colour::Purple,
        Color::Cyan => ansi_term::Colour::Cyan,
    };
    colour.paint(text).to_string()
}

} // verus!
