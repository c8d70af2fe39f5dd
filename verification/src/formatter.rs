//! Writing a decoded stream as text.

use vstd::prelude::*;
use crate::ansi::{views, AnsiElement, ElementView};

verus! {

/// A way of writing a list of elements as one text.
pub trait FormatAnsi {
    /// The text that `format` writes for the elements.
    spec fn rendering(&self, elements: Seq<ElementView>) -> Seq<char>;

    /// Writes the elements.
    fn format(&self, elements: &[AnsiElement]) -> (out: String)
        ensures
            out@ == self.rendering(views(elements@)),
    ;
}

/// Writes every element on one line, each in square brackets.
pub struct SingleLineFormatter;

/// One element as the single-line formatter writes it: category, escape
/// notation in quotes, and description.
pub open spec fn single_line_piece(element: ElementView) -> Seq<char> {
    "["@ + element.type_text() + " '"@ + element.escape_text() + "': "@
        + element.description_text() + "] "@
}

/// The elements as the single-line formatter writes them, one behind the
/// other.
pub open spec fn single_line_text(elements: Seq<ElementView>) -> Seq<char>
    decreases elements.len(),
{
    if elements.len() == 0 {
        Seq::empty()
    } else {
        single_line_text(elements.drop_last()) + single_line_piece(elements.last())
    }
}

impl FormatAnsi for SingleLineFormatter {
    open spec fn rendering(&self, elements: Seq<ElementView>) -> Seq<char> {
        single_line_text(elements)
    }

    fn format(&self, elements: &[AnsiElement]) -> (out: String) {
        let mut out = String::new();
        let mut i: usize = 0;
        while i < elements.len()
            invariant
                i <= elements@.len(),
                out@ == single_line_text(views(elements@).take(i as int)),
            decreases elements@.len() - i,
        {
            let element = &elements[i];
            let ghost before = out@;
            out.append("[");
            out.append(element.element_type());
            out.append(" '");
            out.append(element.escape_repr().as_str());
            out.append("': ");
            out.append(element.description().as_str());
            out.append("] ");
            proof {
                let done = views(elements@).take(i as int);
                let more = views(elements@).take(i + 1);
                assert(more.drop_last() =~= done);
                assert(more.last() == elements@[i as int]@);
                assert(out@ =~= before + single_line_piece(elements@[i as int]@));
            }
            i += 1;
        }
        proof {
            assert(views(elements@).take(i as int) =~= views(elements@));
        }
        out
    }
}

} // verus!
