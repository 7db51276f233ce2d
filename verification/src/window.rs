//! The windows of the application and what a request to close one leads to.

use vstd::prelude::*;
use crate::text::same_text;

verus! {

/// A window of the application, known to the toolkit by its label.
#[derive(Clone, Copy, Debug, PartialEq, Eq, Structural)]
pub enum Surface {
    /// The task list.
    Main,
    /// The small always-on-top countdown display.
    Timer,
    /// The about dialog.
    About,
}

impl Surface {
    /// The label of the window in the model.
    pub open spec fn spec_label(self) -> Seq<char> {
        match self {
            Surface::Main => "main"@,
            Surface::Timer => "timer"@,
            Surface::About => "about"@,
        }
    }

    /// The label under which the toolkit knows the window.
    pub fn label(&self) -> (label: &'static str)
        ensures
            label@ == self.spec_label(),
    {
        match self {
            Surface::Main => "main",
            Surface::Timer => "timer",
            Surface::About => "about",
        }
    }
}

/// What becomes of a window that was asked to close.
#[derive(Clone, Copy, Debug, PartialEq, Eq, Structural)]
pub enum CloseDecision {
    /// The window is hidden and stays alive, so the application lives on
    /// in the system tray.
    HideToTray,
    /// The window closes.
    Close,
}

/// The decision in the model: only the main window is kept.
pub open spec fn spec_close_requested(label: Seq<char>) -> CloseDecision {
    if label == Surface::Main.spec_label() {
        CloseDecision::HideToTray
    } else {
        CloseDecision::Close
    }
}

/// Decides what a close request on the window with this label leads to.
pub fn close_requested(label: &str) -> (decision: CloseDecision)
    ensures
        decision == spec_close_requested(label@),
{
    if same_text(label, Surface::Main.label()) {
        CloseDecision::HideToTray
    } else {
        CloseDecision::Close
    }
}

} // verus!
