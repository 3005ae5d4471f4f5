//! The full-window panel of one frame.

use vstd::prelude::*;
use crate::widget::{TextElement, TextElementView, TextStyle};

verus! {

/// The region that fills the window, holding the widgets laid out in it during
/// one frame, from top to bottom.
#[derive(Clone, Debug, PartialEq, Eq)]
pub struct CentralPanel {
    pub widgets: Vec<TextElement>,
}

impl View for CentralPanel {
    type V = Seq<TextElementView>;

    open spec fn view(&self) -> Seq<TextElementView> {
        self.widgets@.map_values(|element: TextElement| element@)
    }
}

impl CentralPanel {
    /// A panel with nothing in it.
    pub fn new() -> (panel: CentralPanel)
        ensures
            panel@ == Seq::<TextElementView>::empty(),
    {
        let panel = CentralPanel { widgets: Vec::new() };
        assert(panel@ =~= Seq::<TextElementView>::empty());
        panel
    }

    /// Places a heading that reads `text` below what the panel already holds.
    pub fn heading(&mut self, text: &'static str)
        ensures
            final(self)@ == old(self)@.push(
                TextElementView { style: TextStyle::Heading, text: text@ },
            ),
    {
        self.widgets.push(TextElement::heading(text));
        assert(self@ =~= old(self)@.push(
            TextElementView { style: TextStyle::Heading, text: text@ },
        ));
    }

    /// Places a label that reads `text` below what the panel already holds.
    pub fn label(&mut self, text: &'static str)
        ensures
            final(self)@ == old(self)@.push(
                TextElementView { style: TextStyle::Label, text: text@ },
            ),
    {
        self.widgets.push(TextElement::label(text));
        assert(self@ =~= old(self)@.push(
            TextElementView { style: TextStyle::Label, text: text@ },
        ));
    }
}

} // verus!
