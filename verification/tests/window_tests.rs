use convpalette::integration::{
    autostart_enabled, context_menu_registered, register_context_menu, set_autostart,
    unregister_context_menu,
};
use convpalette::window::{
    focus_lost_action, shortcut_action, toggle_action, tray_click_action, tray_menu_action,
    PaletteAction,
};

#[test]
fn tray_menu_items() {
    assert_eq!(tray_menu_action("show"), PaletteAction::Show);
    assert_eq!(tray_menu_action("quit"), PaletteAction::Quit);
    assert_eq!(tray_menu_action("settings"), PaletteAction::ShowSettings);
    assert_eq!(tray_menu_action("Show"), PaletteAction::Nothing);
    assert_eq!(tray_menu_action(""), PaletteAction::Nothing);
}

#[test]
fn toggling_the_palette() {
    assert_eq!(toggle_action(true), PaletteAction::Hide);
    assert_eq!(toggle_action(false), PaletteAction::Show);
    assert_eq!(tray_click_action(true, true, false), PaletteAction::Show);
    assert_eq!(tray_click_action(true, true, true), PaletteAction::Hide);
    assert_eq!(tray_click_action(true, false, false), PaletteAction::Nothing);
    assert_eq!(tray_click_action(false, true, true), PaletteAction::Nothing);
    assert_eq!(shortcut_action(true, true), PaletteAction::Hide);
    assert_eq!(shortcut_action(true, false), PaletteAction::Show);
    assert_eq!(shortcut_action(false, false), PaletteAction::Nothing);
}

#[test]
fn focus_loss_hides_only_when_asked() {
    assert_eq!(focus_lost_action(true), PaletteAction::Hide);
    assert_eq!(focus_lost_action(false), PaletteAction::Nothing);
}

#[test]
fn integration_without_registry() {
    assert_eq!(register_context_menu(), Err("Контекстное меню поддерживается только в Windows".to_string()));
    assert_eq!(unregister_context_menu(), Ok(()));
    assert!(!context_menu_registered());
    assert_eq!(set_autostart(true), Err("Автозапуск поддерживается только в Windows".to_string()));
    assert_eq!(set_autostart(false), Err("Автозапуск поддерживается только в Windows".to_string()));
    assert!(!autostart_enabled());
}
