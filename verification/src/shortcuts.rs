//! Keyboard shortcuts of the editor window and of the text dialog.

use vstd::prelude::*;

verus! {

/// The keys that the editor reacts to; every other key is `Other`.
#[derive(Clone, Copy, Debug, PartialEq, Eq, Structural)]
pub enum ShortcutKey {
    Z,
    S,
    C,
    Escape,
    Other,
}

/// What a key press in the editor window asks for.
#[derive(Clone, Copy, Debug, PartialEq, Eq, Structural)]
pub enum KeyAction {
    /// Remove the last annotation and redraw.
    Undo,
    /// Save the annotated image and keep the window open.
    Save,
    /// Copy the annotated image to the clipboard and keep the window open.
    Copy,
    /// Save the annotated image, then close the window.
    SaveAndClose,
    /// Copy the annotated image to the clipboard, then close the window.
    CopyAndClose,
    /// Not a shortcut: let the key event go on to other handlers.
    Proceed,
}

/// The action bound to `key`, pressed with or without Ctrl.
pub open spec fn shortcut_for(ctrl: bool, key: ShortcutKey) -> KeyAction {
    match key {
        ShortcutKey::Z => if ctrl { KeyAction::Undo } else { KeyAction::Proceed },
        ShortcutKey::S => if ctrl { KeyAction::Save } else { KeyAction::SaveAndClose },
        ShortcutKey::C => if ctrl { KeyAction::Copy } else { KeyAction::CopyAndClose },
        _ => KeyAction::Proceed,
    }
}

/// Ctrl+Z undoes, Ctrl+S saves, Ctrl+C copies; S and C without Ctrl save or
/// copy and then close the window; any other key is left to other handlers.
pub fn shortcut_action(ctrl: bool, key: ShortcutKey) -> (action: KeyAction)
    ensures
        action == shortcut_for(ctrl, key),
{
    if ctrl {
        match key {
            ShortcutKey::Z => {
                return KeyAction::Undo;
            },
            ShortcutKey::S => {
                return KeyAction::Save;
            },
            ShortcutKey::C => {
                return KeyAction::Copy;
            },
            _ => {},
        }
    }
    match key {
        ShortcutKey::S => KeyAction::SaveAndClose,
        ShortcutKey::C => KeyAction::CopyAndClose,
        _ => KeyAction::Proceed,
    }
}

/// Whether the key event stops at the editor (true for every shortcut).
pub fn stops_propagation(action: KeyAction) -> (stop: bool)
    ensures
        stop <==> action != KeyAction::Proceed,
{
    match action {
        KeyAction::Proceed => false,
        _ => true,
    }
}

/// Whether `key` closes the text dialog: only Escape does.
pub fn text_dialog_closes(key: ShortcutKey) -> (close: bool)
    ensures
        close <==> key == ShortcutKey::Escape,
{
    match key {
        ShortcutKey::Escape => true,
        _ => false,
    }
}

/// The shortcut table, read action by action: Ctrl+Z alone undoes, Ctrl+S
/// alone saves, Ctrl+C alone copies, S and C without Ctrl save or copy and
/// close, and every other key, Escape among them, with or without Ctrl,
/// does nothing in the editor window.
pub proof fn lemma_shortcut_table(ctrl: bool, key: ShortcutKey)
    ensures
        (shortcut_for(ctrl, key) == KeyAction::Undo) <==> (ctrl && key == ShortcutKey::Z),
        (shortcut_for(ctrl, key) == KeyAction::Save) <==> (ctrl && key == ShortcutKey::S),
        (shortcut_for(ctrl, key) == KeyAction::Copy) <==> (ctrl && key == ShortcutKey::C),
        (shortcut_for(ctrl, key) == KeyAction::SaveAndClose) <==> (!ctrl && key == ShortcutKey::S),
        (shortcut_for(ctrl, key) == KeyAction::CopyAndClose) <==> (!ctrl && key == ShortcutKey::C),
        key != ShortcutKey::Z && key != ShortcutKey::S && key != ShortcutKey::C ==> shortcut_for(
            ctrl,
            key,
        ) == KeyAction::Proceed,
        !ctrl && key == ShortcutKey::Z ==> shortcut_for(ctrl, key) == KeyAction::Proceed,
{
}

} // verus!
