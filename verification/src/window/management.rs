use vstd::prelude::*;

verus! {

/// What toggling does to the main window.
#[derive(Clone, Copy, Debug, PartialEq, Eq, Structural)]
pub enum ToggleAction {
    /// The window is hidden.
    Hide,
    /// The window is shown and focused.
    Show,
}

/// Whether toggling hides or shows the main window.
///
/// `visible` says whether the window is visible now, or is `None` where
/// that could not be learnt. Only a window that is known to be visible is
/// hidden.
pub fn toggle_main_window(visible: Option<bool>) -> (action: ToggleAction)
    ensures
        action == (if visible == Some(true) {
            ToggleAction::Hide
        } else {
            ToggleAction::Show
        }),
{
    match visible {
        Some(true) => ToggleAction::Hide,
        _ => ToggleAction::Show,
    }
}

} // verus!
