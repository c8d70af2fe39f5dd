//! Colour for the terminal, as `termio` writes it.

use vstd::prelude::*;
use termio::{Color, Decoration, StyledText};

verus! {

/// The colours that the formatters use.
#[derive(Debug, Clone, Copy, PartialEq, Eq)]
pub enum Tint {
    Blue,
    Yellow,
    IntenseMagenta,
    IntenseBlack,
}

/// The text that `termio` writes for `text` in the foreground colour `tint`.
pub uninterp spec fn painted(text: Seq<char>, tint: Tint) -> Seq<char>;

/// The text that `termio` writes for `text` in the foreground colour `tint`
/// and in bold.
pub uninterp spec fn painted_bold(text: Seq<char>, tint: Tint) -> Seq<char>;

/// Gives `text` a foreground colour: `termio`'s `StyledText::color`, written
/// out by the `Display` of its `StyledString`. Nothing is claimed of the
/// result but that it depends on the text and the colour alone.
#[verifier::external_body]
pub(crate) fn paint(text: &str, tint: Tint) -> (out: String)
    ensures
        out@ == painted(text@, tint),
{
    let color = match tint {
        Tint::Blue => Color::Blue,
        Tint::Yellow => Color::Yellow,
        Tint::IntenseMagenta => Color::IntenseMagenta,
        Tint::IntenseBlack => Color::IntenseBlack,
    };
    text.color(color).to_string()
}

/// Gives `text` a foreground colour and makes it bold: `termio`'s
/// `StyledText::color` and `StyledString::decoration` with
/// `Decoration::Bold`, written out by the `Display` of its `StyledString`.
/// Nothing is claimed of the result but that it depends on the text and the
/// colour alone.
#[verifier::external_body]
pub(crate) fn paint_bold(text: &str, tint: Tint) -> (out: String)
    ensures
        out@ == painted_bold(text@, tint),
{
    let color = match tint {
        Tint::Blue => Color::Blue,
        Tint::Yellow => Color::Yellow,
        Tint::IntenseMagenta => Color::IntenseMagenta,
        Tint::IntenseBlack => Color::IntenseBlack,
    };
    text.color(color).decoration(Decoration::Bold).to_string()
}

} // verus!
