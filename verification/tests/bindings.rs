use controller_mapper::action::{
    key_for_editor_key, EditorKey, EditorNamedKey, Key, MouseButton, MouseButtonOrKey,
};
use controller_mapper::binding::BindingTable;
use controller_mapper::input::{Button, Joystick};

#[test]
fn new_table_is_empty_with_flags_off() {
    let t = BindingTable::new();
    assert_eq!(t.get(Button::South), None);
    assert_eq!(t.get(Button::DPadUp), None);
    assert!(!t.use_left_stick_mouse());
    assert!(!t.use_right_stick_mouse());
}

#[test]
fn insert_key_then_get_returns_exactly_that_key() {
    let mut t = BindingTable::new();
    t.insert_key(Button::DPadUp, Key::Character('w'));
    assert_eq!(
        t.get(Button::DPadUp),
        Some(MouseButtonOrKey::Key(Key::Character('w')))
    );
    // other inputs stay unbound
    assert_eq!(t.get(Button::DPadDown), None);
}

#[test]
fn insert_mouse_button_overwrites_key_last_write_wins() {
    let mut t = BindingTable::new();
    t.insert_key(Button::North, Key::Character('q'));
    t.insert_mouse_button(Button::North, MouseButton::Right);
    assert_eq!(
        t.get(Button::North),
        Some(MouseButtonOrKey::MouseButton(MouseButton::Right))
    );
    t.insert_key(Button::North, Key::Tab);
    assert_eq!(t.get(Button::North), Some(MouseButtonOrKey::Key(Key::Tab)));
}

#[test]
fn remove_then_get_yields_nothing_regardless_of_prior_state() {
    // bound input
    let mut t = BindingTable::new();
    t.insert_key(Button::Start, Key::Escape);
    t.remove(Button::Start);
    assert_eq!(t.get(Button::Start), None);
    // unbound input: removal is a no-op, not an error
    t.remove(Button::Select);
    assert_eq!(t.get(Button::Select), None);
    // removing twice
    t.remove(Button::Start);
    assert_eq!(t.get(Button::Start), None);
}

#[test]
fn remove_leaves_other_bindings_alone() {
    let mut t = BindingTable::new();
    t.insert_key(Button::West, Key::Character('a'));
    t.insert_key(Button::East, Key::Character('d'));
    t.remove(Button::West);
    assert_eq!(t.get(Button::West), None);
    assert_eq!(
        t.get(Button::East),
        Some(MouseButtonOrKey::Key(Key::Character('d')))
    );
}

#[test]
fn stick_mouse_flags_toggle_and_set() {
    let mut t = BindingTable::new();
    t.toggle_stick_mouse(Joystick::Left);
    assert!(t.use_left_stick_mouse());
    assert!(!t.use_right_stick_mouse());
    t.toggle_stick_mouse(Joystick::Left);
    assert!(!t.use_left_stick_mouse());
    t.set_stick_mouse(Joystick::Right, true);
    assert!(t.use_right_stick_mouse());
    t.set_stick_mouse(Joystick::Right, false);
    assert!(!t.use_right_stick_mouse());
}

#[test]
fn editor_character_key_maps_to_itself() {
    assert_eq!(
        key_for_editor_key(EditorKey::Character('x')),
        Some(Key::Character('x'))
    );
}

#[test]
fn editor_named_keys_map_to_their_synthetic_counterparts() {
    let cases = [
        (EditorNamedKey::Control, Key::Control),
        (EditorNamedKey::Alt, Key::Alt),
        (EditorNamedKey::Shift, Key::Shift),
        (EditorNamedKey::Tab, Key::Tab),
        (EditorNamedKey::Escape, Key::Escape),
        (EditorNamedKey::Meta, Key::Meta),
        (EditorNamedKey::Backspace, Key::Backspace),
    ];
    for (named, expected) in cases {
        assert_eq!(key_for_editor_key(EditorKey::Named(named)), Some(expected));
    }
}

#[test]
fn unmapped_editor_keys_map_to_nothing() {
    assert_eq!(key_for_editor_key(EditorKey::Named(EditorNamedKey::Other)), None);
    assert_eq!(key_for_editor_key(EditorKey::Unidentified), None);
}
