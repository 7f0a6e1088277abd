use vstd::prelude::*;
use ansi_term::Colour;

verus! {

/// The colours and weights in which the client prints.
#[derive(Clone, Copy, Debug, PartialEq, Eq, Structural)]
pub enum Tint {
    Green,
    Red,
    BoldBlue,
    DimWhite,
}

/// The escape sequence that switches a tint on.
pub open spec fn tint_code(tint: Tint) -> Seq<char> {
    match tint {
        Tint::Green => "\x1B[32m"@,
        Tint::Red => "\x1B[31m"@,
        Tint::BoldBlue => "\x1B[1;34m"@,
        Tint::DimWhite => "\x1B[2;37m"@,
    }
}

/// The escape sequence that switches every tint off.
pub open spec fn reset_code() -> Seq<char> {
    "\x1B[0m"@
}

/// A text as the terminal gets it when it is printed in a tint.
pub open spec fn tinted(tint: Tint, text: Seq<char>) -> Seq<char> {
    tint_code(tint) + text + reset_code()
}

/// Paints a text with `Style::paint` of `ansi_term` and formats what comes
/// back. The contract claims what the crate writes for a style with a
/// foreground colour: the escape sequence with the style's numbers, then the
/// text unchanged, then the reset sequence.
#[verifier::external_body]
fn paint(tint: Tint, text: &str) -> (res: String)
    ensures
        res@ == tinted(tint, text@),
{
    let style = match tint {
        Tint::Green => Colour::Green.normal(),
        Tint::Red => Colour::Red.normal(),
        Tint::BoldBlue => Colour::Blue.bold(),
        Tint::DimWhite => Colour::White.dimmed(),
    };
    style.paint(text).to_string()
}

/// The text wrapped in the escape sequences of the tint.
pub fn styled(tint: Tint, text: &str) -> (res: String)
    ensures
        res@ == tinted(tint, text@),
{
    paint(tint, text)
}

} // verus!
