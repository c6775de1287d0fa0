use crate::utils::text::same_text;
use vstd::prelude::*;

verus! {

/// What an entry of the tray menu asks for.
#[derive(Clone, Copy, Debug, PartialEq, Eq, Structural)]
pub enum TrayCommand {
    /// Show the main window.
    Show,
    /// Put the main window back to the centre of the screen.
    ResetPosition,
    /// Open the settings window.
    Settings,
    /// Quit.
    Quit,
}

/// The command that the identifier of a menu entry stands for, if any.
pub open spec fn tray_command_of(id: Seq<char>) -> Option<TrayCommand> {
    if id == "show"@ {
        Some(TrayCommand::Show)
    } else if id == "reset_position"@ {
        Some(TrayCommand::ResetPosition)
    } else if id == "settings"@ {
        Some(TrayCommand::Settings)
    } else if id == "quit"@ {
        Some(TrayCommand::Quit)
    } else {
        None
    }
}

/// Reads the identifier of the menu entry that was chosen.
pub fn tray_menu_command(id: &str) -> (command: Option<TrayCommand>)
    ensures
        command == tray_command_of(id@),
{
    if same_text(id, "show") {
        Some(TrayCommand::Show)
    } else if same_text(id, "reset_position") {
        Some(TrayCommand::ResetPosition)
    } else if same_text(id, "settings") {
        Some(TrayCommand::Settings)
    } else if same_text(id, "quit") {
        Some(TrayCommand::Quit)
    } else {
        None
    }
}

} // verus!
