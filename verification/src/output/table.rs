//! The stream as a table: one row for each element.

use vstd::prelude::*;
use tabled::settings::{Alignment, Style};
use tabled::Table;
use crate::ansi::{views, AnsiElement, ElementView};
use crate::formatter::FormatAnsi;
use crate::output::paint::{paint, paint_bold, painted, painted_bold, Tint};
use crate::text::texts;

verus! {

/// Writes a table with the columns `Type`, `Esc` and `Desc`, coloured where
/// `colorize` is set.
pub struct TableFormatter {
    pub colorize: bool,
}

/// The text that `tabled` lays out for a grid of cells, given row by row,
/// without borders and with every cell aligned to the left.
pub uninterp spec fn grid_text(records: Seq<Seq<Seq<char>>>) -> Seq<char>;

/// The cells of a list of rows.
pub open spec fn cells_of(records: Seq<Vec<String>>) -> Seq<Seq<Seq<char>>> {
    Seq::new(records.len(), |r: int| texts(records[r]@))
}

/// Lays the rows out as a table: `tabled`'s `Table::from_iter` with
/// `Style::empty` and `Alignment::left`, written out by its `Display`. The
/// first row is set like the others. Nothing is claimed of the result but
/// that it depends on the cells alone.
#[verifier::external_body]
pub(crate) fn render_grid(records: &Vec<Vec<String>>) -> (out: String)
    ensures
        out@ == grid_text(cells_of(records@)),
{
    let mut table = Table::from_iter(records);
    table.with(Style::empty()).with(Alignment::left());
    table.to_string()
}

/// The head of the table.
pub open spec fn header_row() -> Seq<Seq<char>> {
    seq!["Type"@, "Esc"@, "Desc"@]
}

/// The first cell of a row: the category of the element, in grey for text
/// and in bold blue or yellow for commands and control characters where
/// colour is asked for.
pub open spec fn type_cell(element: ElementView, colorize: bool) -> Seq<char> {
    if colorize {
        match element {
            ElementView::Text(_) => painted(element.type_text(), Tint::IntenseBlack),
            ElementView::Csi(_) => painted_bold(element.type_text(), Tint::Blue),
            ElementView::Ctrl(_) => painted_bold(element.type_text(), Tint::Yellow),
        }
    } else {
        element.type_text()
    }
}

/// The second cell of a row: the escape notation of the element, in magenta
/// where colour is asked for.
pub open spec fn escape_cell(element: ElementView, colorize: bool) -> Seq<char> {
    if colorize {
        painted(element.escape_text(), Tint::IntenseMagenta)
    } else {
        element.escape_text()
    }
}

/// The row of one element: category, escape notation, description.
pub open spec fn element_row(element: ElementView, colorize: bool) -> Seq<Seq<char>> {
    seq![type_cell(element, colorize), escape_cell(element, colorize), element.description_text()]
}

/// The rows of the table: the head, then one row for each element.
pub open spec fn table_rows(elements: Seq<ElementView>, colorize: bool) -> Seq<Seq<Seq<char>>> {
    Seq::new(
        elements.len() + 1,
        |r: int|
            if r == 0 {
                header_row()
            } else {
                element_row(elements[r - 1], colorize)
            },
    )
}

/// The table of the elements; nothing where there is no element.
pub open spec fn table_text(elements: Seq<ElementView>, colorize: bool) -> Seq<char> {
    if elements.len() == 0 {
        Seq::empty()
    } else {
        grid_text(table_rows(elements, colorize))
    }
}

impl TableFormatter {
    /// A table formatter that colours where `colorize` is set.
    pub fn new(colorize: bool) -> (formatter: Self)
        ensures
            formatter.colorize == colorize,
    {
        Self { colorize }
    }

    /// The row of one element.
    fn row(&self, element: &AnsiElement) -> (cells: Vec<String>)
        ensures
            texts(cells@) == element_row(element@, self.colorize),
    {
        let label = element.element_type();
        let escape = element.escape_repr();
        let first = if self.colorize {
            match element {
                AnsiElement::Text(_) => paint(label, Tint::IntenseBlack),
                AnsiElement::Csi(_) => paint_bold(label, Tint::Blue),
                AnsiElement::Ctrl(_) => paint_bold(label, Tint::Yellow),
            }
        } else {
            label.to_string()
        };
        let second = if self.colorize {
            paint(escape.as_str(), Tint::IntenseMagenta)
        } else {
            escape
        };
        let mut cells: Vec<String> = Vec::new();
        cells.push(first);
        cells.push(second);
        cells.push(element.description());
        proof {
            assert(texts(cells@) =~= element_row(element@, self.colorize));
        }
        cells
    }
}

impl Default for TableFormatter {
    /// A table formatter that colours.
    fn default() -> (formatter: Self)
        ensures
            formatter.colorize,
    {
        Self { colorize: true }
    }
}

impl FormatAnsi for TableFormatter {
    open spec fn rendering(&self, elements: Seq<ElementView>) -> Seq<char> {
        table_text(elements, self.colorize)
    }

    fn format(&self, elements: &[AnsiElement]) -> (out: String) {
        if elements.len() == 0 {
            return String::new();
        }
        let mut head: Vec<String> = Vec::new();
        head.push("Type".to_string());
        head.push("Esc".to_string());
        head.push("Desc".to_string());
        proof {
            assert(texts(head@) =~= header_row());
        }
        let mut records: Vec<Vec<String>> = Vec::new();
        records.push(head);
        let mut i: usize = 0;
        while i < elements.len()
            invariant
                i <= elements@.len(),
                records@.len() == i + 1,
                texts(records@[0]@) == header_row(),
                forall|r: int|
                    1 <= r <= i ==> texts((#[trigger] records@[r])@) == element_row(
                        elements@[r - 1]@,
                        self.colorize,
                    ),
            decreases elements@.len() - i,
        {
            let cells = self.row(&elements[i]);
            records.push(cells);
            i += 1;
        }
        proof {
            assert(cells_of(records@) =~= table_rows(views(elements@), self.colorize));
        }
        render_grid(&records)
    }
}

} // verus!
