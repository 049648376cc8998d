//! Terminal colours and the painting of a tag.

use vstd::prelude::*;

verus! {

/// A terminal colour: one of the eight standard colours, a number in the 256-colour palette, or
/// a 24-bit colour.
#[derive(Clone, Copy, Debug, PartialEq, Eq, Structural)]
pub enum Colour {
    Black,
    Red,
    Green,
    Yellow,
    Blue,
    Purple,
    Cyan,
    White,
    Fixed(u8),
    RGB(u8, u8, u8),
}

/// The text that `ansi_term` renders for `text` painted in `colour` as the foreground: the
/// text between the escape sequence that selects the colour and the one that resets it.
pub uninterp spec fn painted(colour: Colour, text: Seq<char>) -> Seq<char>;

/// Paints `text` with `ansi_term::Colour::paint` and renders the result to a string.
///
/// Trusted: the rendering depends on the colour and the text alone, so it is the value that
/// `painted` names for them.
#[verifier::external_body]
pub(crate) fn paint(colour: Colour, text: &str) -> (out: String)
    ensures
        out@ == painted(colour, text@),
{
    let outside = match colour {
        Colour::Black => ansi_term::Colour::Black,
        Colour::Red => ansi_term::Colour::Red,
        Colour::Green => ansi_term::Colour::Green,
        Colour::Yellow => ansi_term::Colour::Yellow,
        Colour::Blue => ansi_term::Colour::Blue,
        Colour::Purple => ansi_term::Colour::Purple,
        Colour::Cyan => ansi_term::Colour::Cyan,
        Colour::White => ansi_term::Colour::White,
        Colour::Fixed(n) => ansi_term::Colour::Fixed(n),
        Colour::RGB(r, g, b) => ansi_term::Colour::RGB(r, g, b),
    };
    outside.paint(text).to_string()
}

} // verus!
