//! The SchroSIM desktop shell: what its window is called, what every frame
//! shows, and how a finished run maps to a process exit status.
//!
//! Drawing itself belongs to the windowing toolkit. This library describes a
//! frame as plain data, so that what appears on screen can be stated and proved.

pub mod widget;
pub mod panel;
pub mod app;
pub mod exit;

pub use app::SchroSimApp;
pub use exit::{exit_code, RunOutcome};
pub use panel::CentralPanel;
pub use widget::{TextElement, TextStyle};
