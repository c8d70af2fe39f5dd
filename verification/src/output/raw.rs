//! The stream as it came, with its sequences written in escape notation.

use vstd::prelude::*;
use crate::ansi::{views, AnsiElement, ElementView};
use crate::formatter::FormatAnsi;
use crate::output::paint::{paint, painted, Tint};

verus! {

/// Writes text as it is and every other element in escape notation,
/// highlighted where `colorize` is set.
pub struct RawFormatter {
    pub colorize: bool,
}

/// One element as the raw formatter writes it: text unchanged, a command in
/// blue and a control character in yellow where colour is asked for.
pub open spec fn raw_piece(element: ElementView, colorize: bool) -> Seq<char> {
    match element {
        ElementView::Text(text) => text,
        ElementView::Csi(_) => if colorize {
            painted(element.escape_text(), Tint::Blue)
        } else {
            element.escape_text()
        },
        ElementView::Ctrl(_) => if colorize {
            painted(element.escape_text(), Tint::Yellow)
        } else {
            element.escape_text()
        },
    }
}

/// The elements as the raw formatter writes them, one behind the other.
pub open spec fn raw_text(elements: Seq<ElementView>, colorize: bool) -> Seq<char>
    decreases elements.len(),
{
    if elements.len() == 0 {
        Seq::empty()
    } else {
        raw_text(elements.drop_last(), colorize) + raw_piece(elements.last(), colorize)
    }
}

impl RawFormatter {
    /// A raw formatter that highlights where `colorize` is set.
    pub fn new(colorize: bool) -> (formatter: Self)
        ensures
            formatter.colorize == colorize,
    {
        Self { colorize }
    }
}

impl Default for RawFormatter {
    /// A raw formatter that highlights.
    fn default() -> (formatter: Self)
        ensures
            formatter.colorize,
    {
        Self { colorize: true }
    }
}

impl FormatAnsi for RawFormatter {
    open spec fn rendering(&self, elements: Seq<ElementView>) -> Seq<char> {
        raw_text(elements, self.colorize)
    }

    fn format(&self, elements: &[AnsiElement]) -> (out: String) {
        let mut out = String::new();
        let mut i: usize = 0;
        while i < elements.len()
            invariant
                i <= elements@.len(),
                out@ == raw_text(views(elements@).take(i as int), self.colorize),
            decreases elements@.len() - i,
        {
            let element = &elements[i];
            match element {
                AnsiElement::Text(text) => {
                    out.append(text.as_str());
                },
                AnsiElement::Csi(_) => {
                    let escape = element.escape_repr();
                    if self.colorize {
                        out.append(paint(escape.as_str(), Tint::Blue).as_str());
                    } else {
                        out.append(escape.as_str());
                    }
                },
                AnsiElement::Ctrl(_) => {
                    let escape = element.escape_repr();
                    if self.colorize {
                        out.append(paint(escape.as_str(), Tint::Yellow).as_str());
                    } else {
                        out.append(escape.as_str());
                    }
                },
            }
            proof {
                let done = views(elements@).take(i as int);
                let more = views(elements@).take(i + 1);
                assert(more.drop_last() =~= done);
                assert(more.last() == elements@[i as int]@);
            }
            i += 1;
        }
        proof {
            assert(views(elements@).take(i as int) =~= views(elements@));
        }
        out
    }
}

} // verus!
