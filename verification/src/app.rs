//! The application shell and its per-frame draw operation.

use vstd::prelude::*;
use crate::panel::CentralPanel;
use crate::widget::{TextElementView, TextStyle};

verus! {

/// The title of the application window.
pub open spec fn window_title_spec() -> Seq<char> {
    "SchroSIM"@
}

/// The text of the heading shown in every frame.
pub open spec fn heading_text_spec() -> Seq<char> {
    "SchroSIM GUI"@
}

/// The text of the label shown below the heading in every frame.
pub open spec fn label_text_spec() -> Seq<char> {
    "Phase 2: GUI bootstrap"@
}

/// What the central panel holds in every frame: the heading, then the label.
pub open spec fn central_panel_spec() -> Seq<TextElementView> {
    seq![
        TextElementView { style: TextStyle::Heading, text: heading_text_spec() },
        TextElementView { style: TextStyle::Label, text: label_text_spec() },
    ]
}

/// The application state. It has no fields: nothing is remembered from one
/// frame to the next.
#[derive(Clone, Copy, Debug, PartialEq, Eq, Structural, Hash)]
pub struct SchroSimApp;

impl Default for SchroSimApp {
    fn default() -> (app: SchroSimApp)
        ensures
            app == SchroSimApp,
    {
        SchroSimApp
    }
}

impl SchroSimApp {
    /// One frame as a transition: the state it leaves behind and the panel it
    /// draws.
    pub open spec fn spec_update(self) -> (SchroSimApp, Seq<TextElementView>) {
        (self, central_panel_spec())
    }

    /// The state after `frames` frames have been drawn, starting from `self`.
    pub open spec fn spec_after(self, frames: nat) -> SchroSimApp
        decreases frames,
    {
        if frames == 0 {
            self
        } else {
            self.spec_update().0.spec_after((frames - 1) as nat)
        }
    }

    /// The title under which the window is opened.
    pub fn window_title() -> (title: &'static str)
        ensures
            title@ == window_title_spec(),
    {
        "SchroSIM"
    }

    /// Draws one frame: a single full-window panel holding the heading and,
    /// below it, the label. The state is left as it was.
    pub fn update(&mut self) -> (panel: CentralPanel)
        ensures
            (*final(self), panel@) == old(self).spec_update(),
    {
        let mut panel = CentralPanel::new();
        panel.heading("SchroSIM GUI");
        panel.label("Phase 2: GUI bootstrap");
        assert(panel@ =~= central_panel_spec());
        panel
    }
}

/// Every frame's panel holds exactly two text elements: first the heading
/// "SchroSIM GUI", then the label "Phase 2: GUI bootstrap".
pub proof fn lemma_frame_is_heading_then_label(app: SchroSimApp)
    ensures
        app.spec_update().1.len() == 2,
        app.spec_update().1[0] == (TextElementView {
            style: TextStyle::Heading,
            text: "SchroSIM GUI"@,
        }),
        app.spec_update().1[1] == (TextElementView {
            style: TextStyle::Label,
            text: "Phase 2: GUI bootstrap"@,
        }),
{
}

/// Drawing a frame leaves the state exactly as it found it, and the state holds
/// no data: any two states are equal.
pub proof fn lemma_state_carries_no_data(before: SchroSimApp, other: SchroSimApp)
    ensures
        before.spec_update().0 == before,
        before == other,
{
}

/// Rendering is idempotent: however many frames were drawn before, the state is
/// unchanged and the next frame shows the same panel as the first.
pub proof fn lemma_rendering_is_idempotent(app: SchroSimApp, frames: nat)
    ensures
        app.spec_after(frames) == app,
        app.spec_after(frames).spec_update().1 == app.spec_update().1,
    decreases frames,
{
    if frames > 0 {
        lemma_rendering_is_idempotent(app.spec_update().0, (frames - 1) as nat);
    }
}

} // verus!
