//! What happens to the palette window on the events of the tray, the global hotkey and
//! the window itself.
use vstd::prelude::*;

use crate::text::str_eq;

verus! {

/// What to do with the palette window.
#[derive(Debug, Clone, Copy, PartialEq, Eq, Structural)]
pub enum PaletteAction {
    /// Center it, show it and focus it.
    Show,
    /// Hide it.
    Hide,
    /// Show it and open the settings.
    ShowSettings,
    /// Quit the application.
    Quit,
    /// Leave it as it is.
    Nothing,
}

/// The action of an item of the tray menu, by the item's id.
pub open spec fn menu_action(id: Seq<char>) -> PaletteAction {
    if id == "show"@ {
        PaletteAction::Show
    } else if id == "quit"@ {
        PaletteAction::Quit
    } else if id == "settings"@ {
        PaletteAction::ShowSettings
    } else {
        PaletteAction::Nothing
    }
}

/// The action of an item of the tray menu: `show`, `quit` and `settings` are known;
/// any other id does nothing.
pub fn tray_menu_action(id: &str) -> (res: PaletteAction)
    ensures
        res == menu_action(id@),
{
    if str_eq(id, "show") {
        PaletteAction::Show
    } else if str_eq(id, "quit") {
        PaletteAction::Quit
    } else if str_eq(id, "settings") {
        PaletteAction::ShowSettings
    } else {
        PaletteAction::Nothing
    }
}

/// Toggling the palette: a visible palette is hidden, a hidden one shown.
pub fn toggle_action(visible: bool) -> (res: PaletteAction)
    ensures
        res == (if visible { PaletteAction::Hide } else { PaletteAction::Show }),
{
    if visible {
        PaletteAction::Hide
    } else {
        PaletteAction::Show
    }
}

/// A click on the tray icon: releasing the left button toggles the palette; any other
/// click does nothing.
pub fn tray_click_action(left_button: bool, released: bool, visible: bool) -> (res: PaletteAction)
    ensures
        res == (if left_button && released {
            if visible { PaletteAction::Hide } else { PaletteAction::Show }
        } else {
            PaletteAction::Nothing
        }),
{
    if left_button && released {
        toggle_action(visible)
    } else {
        PaletteAction::Nothing
    }
}

/// The global hotkey: pressing it toggles the palette; releasing it does nothing.
pub fn shortcut_action(pressed: bool, visible: bool) -> (res: PaletteAction)
    ensures
        res == (if pressed {
            if visible { PaletteAction::Hide } else { PaletteAction::Show }
        } else {
            PaletteAction::Nothing
        }),
{
    if pressed {
        toggle_action(visible)
    } else {
        PaletteAction::Nothing
    }
}

/// The palette losing focus: it hides only where the settings ask for it.
pub fn focus_lost_action(hide_on_blur: bool) -> (res: PaletteAction)
    ensures
        res == (if hide_on_blur { PaletteAction::Hide } else { PaletteAction::Nothing }),
{
    if hide_on_blur {
        PaletteAction::Hide
    } else {
        PaletteAction::Nothing
    }
}

} // verus!
