//! Synthetic actions: the keyboard keys and mouse buttons that a digital
//! controller input can be bound to, and the mapping from a key pressed in
//! the editor to the synthetic key it stands for.

use vstd::prelude::*;

verus! {

/// A synthetic keyboard key.
///
/// `Character` carries a plain character; the remaining variants are the
/// named modifier and control keys the editor can assign.
#[derive(Clone, Copy, PartialEq, Eq, Structural, Debug)]
pub enum Key {
    Character(char),
    Control,
    Alt,
    Shift,
    Tab,
    Escape,
    Meta,
    Backspace,
}

/// A synthetic mouse button.
#[derive(Clone, Copy, PartialEq, Eq, Structural, Debug)]
pub enum MouseButton {
    Left,
    Middle,
    Right,
    Back,
    Forward,
    ScrollUp,
    ScrollDown,
    ScrollLeft,
    ScrollRight,
}

/// A synthetic action: exactly two kinds, a key press or a mouse-button
/// press. Produced only from digital inputs; axes never map to an action.
#[derive(Clone, Copy, PartialEq, Eq, Structural, Debug)]
pub enum MouseButtonOrKey {
    MouseButton(MouseButton),
    Key(Key),
}

/// A named (non-character) key as reported by the editor front end.
/// Only the variants that map to a synthetic key are distinguished;
/// everything else is `Other`.
#[derive(Clone, Copy, PartialEq, Eq, Structural, Debug)]
pub enum EditorNamedKey {
    Control,
    Alt,
    Shift,
    Tab,
    Escape,
    Meta,
    Backspace,
    Other,
}

/// A key event as reported by the editor front end: a plain character,
/// a named key, or something the front end could not identify.
#[derive(Clone, Copy, PartialEq, Eq, Structural, Debug)]
pub enum EditorKey {
    Character(char),
    Named(EditorNamedKey),
    Unidentified,
}

/// The synthetic key an editor key stands for, if any.
pub open spec fn spec_key_for_editor_key(k: EditorKey) -> Option<Key> {
    match k {
        EditorKey::Character(c) => Some(Key::Character(c)),
        EditorKey::Named(n) => match n {
            EditorNamedKey::Control => Some(Key::Control),
            EditorNamedKey::Alt => Some(Key::Alt),
            EditorNamedKey::Shift => Some(Key::Shift),
            EditorNamedKey::Tab => Some(Key::Tab),
            EditorNamedKey::Escape => Some(Key::Escape),
            EditorNamedKey::Meta => Some(Key::Meta),
            EditorNamedKey::Backspace => Some(Key::Backspace),
            EditorNamedKey::Other => None,
        },
        EditorKey::Unidentified => None,
    }
}

/// Translates a key pressed in the editor into the synthetic key it will
/// be bound as. Character keys map to themselves; the supported named keys
/// map to their synthetic counterparts; anything else maps to nothing.
pub fn key_for_editor_key(k: EditorKey) -> (r: Option<Key>)
    ensures
        r == spec_key_for_editor_key(k),
{
    match k {
        EditorKey::Character(c) => Some(Key::Character(c)),
        EditorKey::Named(n) => match n {
            EditorNamedKey::Control => Some(Key::Control),
            EditorNamedKey::Alt => Some(Key::Alt),
            EditorNamedKey::Shift => Some(Key::Shift),
            EditorNamedKey::Tab => Some(Key::Tab),
            EditorNamedKey::Escape => Some(Key::Escape),
            EditorNamedKey::Meta => Some(Key::Meta),
            EditorNamedKey::Backspace => Some(Key::Backspace),
            EditorNamedKey::Other => None,
        },
        EditorKey::Unidentified => None,
    }
}

} // verus!
