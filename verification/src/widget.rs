//! Static text widgets.

use vstd::prelude::*;

verus! {

/// How a line of text is presented.
#[derive(Clone, Copy, Debug, PartialEq, Eq, Structural, Hash)]
pub enum TextStyle {
    /// Large title text.
    Heading,
    /// Ordinary body text.
    Label,
}

/// One line of static text placed in a panel.
#[derive(Clone, Copy, Debug, PartialEq, Eq, Hash)]
pub struct TextElement {
    pub style: TextStyle,
    pub text: &'static str,
}

/// The mathematical value of a [`TextElement`]: its style and its characters.
pub ghost struct TextElementView {
    pub style: TextStyle,
    pub text: Seq<char>,
}

impl View for TextElement {
    type V = TextElementView;

    open spec fn view(&self) -> TextElementView {
        TextElementView { style: self.style, text: self.text@ }
    }
}

impl TextElement {
    /// A heading that reads `text`.
    pub fn heading(text: &'static str) -> (element: TextElement)
        ensures
            element@ == (TextElementView { style: TextStyle::Heading, text: text@ }),
    {
        TextElement { style: TextStyle::Heading, text }
    }

    /// A label that reads `text`.
    pub fn label(text: &'static str) -> (element: TextElement)
        ensures
            element@ == (TextElementView { style: TextStyle::Label, text: text@ }),
    {
        TextElement { style: TextStyle::Label, text }
    }
}

} // verus!
