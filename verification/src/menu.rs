//! What the items of the application menu and of the system tray lead to.

use vstd::prelude::*;
use crate::commands::{hide_app_to_tray, hide_plan, show_app_from_tray, show_plan};
use crate::effect::{plan_view, Effect, EffectModel};
use crate::text::same_text;

verus! {

/// An edit request that the menu passes on to the task list.
#[derive(Clone, Copy, Debug, PartialEq, Eq, Structural)]
pub enum EditRequest {
    Cut,
    Copy,
    Paste,
    SelectAll,
}

impl EditRequest {
    /// The name of the event in the model.
    pub open spec fn spec_event_name(self) -> Seq<char> {
        match self {
            EditRequest::Cut => "menu-cut"@,
            EditRequest::Copy => "menu-copy"@,
            EditRequest::Paste => "menu-paste"@,
            EditRequest::SelectAll => "menu-select-all"@,
        }
    }

    /// The name of the event that carries the request to the task list.
    pub fn event_name(&self) -> (name: &'static str)
        ensures
            name@ == self.spec_event_name(),
    {
        match self {
            EditRequest::Cut => "menu-cut",
            EditRequest::Copy => "menu-copy",
            EditRequest::Paste => "menu-paste",
            EditRequest::SelectAll => "menu-select-all",
        }
    }
}

/// What a menu item asks for.
#[derive(Clone, Copy, Debug, PartialEq, Eq, Structural)]
pub enum MenuAction {
    /// Pass the edit request on to the task list, if that window exists.
    Edit(EditRequest),
    /// Ask the update service whether an update is available.
    CheckForUpdates,
    /// Open the about dialog.
    ShowAbout,
    /// Hide the application into the system tray.
    HideToTray,
    /// Bring the task list back from the system tray.
    ShowFromTray,
    /// End the process with exit code 0.
    Quit,
    /// The item has no action.
    Nothing,
}

/// The action of the application menu item with this id, in the model.
pub open spec fn spec_menu_event(id: Seq<char>) -> MenuAction {
    if id == "cut"@ {
        MenuAction::Edit(EditRequest::Cut)
    } else if id == "copy"@ {
        MenuAction::Edit(EditRequest::Copy)
    } else if id == "paste"@ {
        MenuAction::Edit(EditRequest::Paste)
    } else if id == "select_all"@ {
        MenuAction::Edit(EditRequest::SelectAll)
    } else if id == "check_updates"@ {
        MenuAction::CheckForUpdates
    } else if id == "quit"@ {
        MenuAction::Quit
    } else if id == "hide_to_tray"@ {
        MenuAction::HideToTray
    } else if id == "about"@ {
        MenuAction::ShowAbout
    } else {
        MenuAction::Nothing
    }
}

/// Decides what the application menu item with this id asks for.
pub fn menu_event(id: &str) -> (action: MenuAction)
    ensures
        action == spec_menu_event(id@),
{
    if same_text(id, "cut") {
        MenuAction::Edit(EditRequest::Cut)
    } else if same_text(id, "copy") {
        MenuAction::Edit(EditRequest::Copy)
    } else if same_text(id, "paste") {
        MenuAction::Edit(EditRequest::Paste)
    } else if same_text(id, "select_all") {
        MenuAction::Edit(EditRequest::SelectAll)
    } else if same_text(id, "check_updates") {
        MenuAction::CheckForUpdates
    } else if same_text(id, "quit") {
        MenuAction::Quit
    } else if same_text(id, "hide_to_tray") {
        MenuAction::HideToTray
    } else if same_text(id, "about") {
        MenuAction::ShowAbout
    } else {
        MenuAction::Nothing
    }
}

/// The action of the tray menu item with this id, in the model.
pub open spec fn spec_tray_menu_event(id: Seq<char>) -> MenuAction {
    if id == "tray_show"@ {
        MenuAction::ShowFromTray
    } else if id == "tray_hide"@ {
        MenuAction::HideToTray
    } else if id == "tray_quit"@ {
        MenuAction::Quit
    } else {
        MenuAction::Nothing
    }
}

/// Decides what the tray menu item with this id asks for.
pub fn tray_menu_event(id: &str) -> (action: MenuAction)
    ensures
        action == spec_tray_menu_event(id@),
{
    if same_text(id, "tray_show") {
        MenuAction::ShowFromTray
    } else if same_text(id, "tray_hide") {
        MenuAction::HideToTray
    } else if same_text(id, "tray_quit") {
        MenuAction::Quit
    } else {
        MenuAction::Nothing
    }
}

/// The plan of a click on the tray icon, in the model. `main_visible` is
/// `None` when there is no task list window.
pub open spec fn spec_tray_icon_clicked(
    left_button_released: bool,
    main_visible: Option<bool>,
) -> Seq<EffectModel> {
    if !left_button_released {
        Seq::empty()
    } else {
        match main_visible {
            None => Seq::empty(),
            Some(true) => hide_plan(),
            Some(false) => show_plan(),
        }
    }
}

/// Decides what a click on the tray icon does: releasing the left button
/// hides the application when the task list is visible and brings the task
/// list back when it is not. Any other click, and a click while there is no
/// task list window, does nothing.
pub fn tray_icon_clicked(
    left_button_released: bool,
    main_visible: Option<bool>,
) -> (plan: Vec<Effect>)
    ensures
        plan_view(plan@) == spec_tray_icon_clicked(left_button_released, main_visible),
{
    if !left_button_released {
        let plan: Vec<Effect> = Vec::new();
        assert(plan_view(plan@) =~= Seq::<EffectModel>::empty());
        plan
    } else {
        match main_visible {
            None => {
                let plan: Vec<Effect> = Vec::new();
                assert(plan_view(plan@) =~= Seq::<EffectModel>::empty());
                plan
            },
            Some(true) => hide_app_to_tray(),
            Some(false) => show_app_from_tray(),
        }
    }
}

} // verus!
