use hyprsnap::shortcuts::{shortcut_action, stops_propagation, text_dialog_closes, KeyAction, ShortcutKey};

#[test]
fn ctrl_shortcuts() {
    assert_eq!(shortcut_action(true, ShortcutKey::Z), KeyAction::Undo);
    assert_eq!(shortcut_action(true, ShortcutKey::S), KeyAction::Save);
    assert_eq!(shortcut_action(true, ShortcutKey::C), KeyAction::Copy);
    assert_eq!(shortcut_action(true, ShortcutKey::Escape), KeyAction::Proceed);
    assert_eq!(shortcut_action(true, ShortcutKey::Other), KeyAction::Proceed);
}

#[test]
fn plain_shortcuts_close_the_window() {
    assert_eq!(shortcut_action(false, ShortcutKey::S), KeyAction::SaveAndClose);
    assert_eq!(shortcut_action(false, ShortcutKey::C), KeyAction::CopyAndClose);
    assert_eq!(shortcut_action(false, ShortcutKey::Z), KeyAction::Proceed);
    assert_eq!(shortcut_action(false, ShortcutKey::Other), KeyAction::Proceed);
}

#[test]
fn only_shortcuts_stop_the_event() {
    assert!(stops_propagation(KeyAction::Undo));
    assert!(stops_propagation(KeyAction::SaveAndClose));
    assert!(!stops_propagation(KeyAction::Proceed));
}

#[test]
fn escape_closes_the_text_dialog() {
    assert!(text_dialog_closes(ShortcutKey::Escape));
    assert!(!text_dialog_closes(ShortcutKey::S));
    assert!(!text_dialog_closes(ShortcutKey::Other));
}
