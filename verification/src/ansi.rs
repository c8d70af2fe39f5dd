//! The elements of a decoded stream.

use vstd::prelude::*;

pub mod csi;
pub mod ctrl;

verus! {

/// One unit of a decoded stream: a run of text, a command, or a control
/// character.
#[derive(Debug, Clone, PartialEq, Eq)]
pub enum AnsiElement {
    Text(String),
    Csi(csi::CSI),
    Ctrl(ctrl::ControlCharacter),
}

/// The mathematical value of an element.
pub enum ElementView {
    Text(Seq<char>),
    Csi(csi::CsiView),
    Ctrl(ctrl::ControlCharacter),
}

impl View for AnsiElement {
    type V = ElementView;

    open spec fn view(&self) -> ElementView {
        match self {
            AnsiElement::Text(text) => ElementView::Text(text@),
            AnsiElement::Csi(command) => ElementView::Csi(command@),
            AnsiElement::Ctrl(character) => ElementView::Ctrl(*character),
        }
    }
}

/// The values of a list of elements, in order.
pub open spec fn views(elements: Seq<AnsiElement>) -> Seq<ElementView> {
    Seq::new(elements.len(), |k: int| elements[k]@)
}

impl ElementView {
    /// The coarse category of the element.
    pub open spec fn type_text(self) -> Seq<char> {
        match self {
            ElementView::Text(_) => "Text"@,
            ElementView::Csi(_) => "CSI"@,
            ElementView::Ctrl(_) => "Ctrl"@,
        }
    }

    /// The escape notation of the element; a text run stands for itself.
    pub open spec fn escape_text(self) -> Seq<char> {
        match self {
            ElementView::Text(text) => text,
            ElementView::Csi(command) => command.escape_text(),
            ElementView::Ctrl(character) => character.escape_text(),
        }
    }

    /// What the element does, in words; a text run stands for itself.
    pub open spec fn description_text(self) -> Seq<char> {
        match self {
            ElementView::Text(text) => text,
            ElementView::Csi(command) => command.description_text(),
            ElementView::Ctrl(character) => character.description_text(),
        }
    }
}

impl AnsiElement {
    /// The coarse category of the element: `Text`, `CSI` or `Ctrl`.
    pub fn element_type(&self) -> (label: &'static str)
        ensures
            label@ == self@.type_text(),
    {
        match self {
            AnsiElement::Text(_) => "Text",
            AnsiElement::Csi(_) => "CSI",
            AnsiElement::Ctrl(_) => "Ctrl",
        }
    }

    /// Writes the element in escape notation.
    pub fn escape_repr(&self) -> (out: String)
        ensures
            out@ == self@.escape_text(),
    {
        match self {
            AnsiElement::Text(text) => text.clone(),
            AnsiElement::Csi(command) => command.escape_repr(),
            AnsiElement::Ctrl(character) => character.escape_repr(),
        }
    }

    /// Says in words what the element does.
    pub fn description(&self) -> (out: String)
        ensures
            out@ == self@.description_text(),
    {
        match self {
            AnsiElement::Text(text) => text.clone(),
            AnsiElement::Csi(command) => command.description(),
            AnsiElement::Ctrl(character) => character.description(),
        }
    }
}

} // verus!
