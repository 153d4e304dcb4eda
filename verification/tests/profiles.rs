use controller_mapper::action::{EditorKey, Key, MouseButton, MouseButtonOrKey};
use controller_mapper::identity::ControllerIdentity;
use controller_mapper::input::{Button, Joystick};
use controller_mapper::profile::Profile;

#[test]
fn identity_from_same_descriptor_compares_equal_across_loads() {
    let d: u128 = 0x0123_4567_89ab_cdef_0123_4567_89ab_cdef;
    let first_load = ControllerIdentity::from_descriptor(d, "Pad (first run)".to_string());
    let second_load = ControllerIdentity::from_descriptor(d, "Pad (second run)".to_string());
    assert!(first_load.same_identity(&second_load));
    assert!(second_load.same_identity(&first_load));
}

#[test]
fn identities_with_different_descriptors_differ() {
    let a = ControllerIdentity::from_descriptor(1, "A".to_string());
    let b = ControllerIdentity::from_descriptor(2, "A".to_string());
    assert!(!a.same_identity(&b));
}

#[test]
fn empty_profile_default_initializes_one_placeholder_table() {
    let p = Profile::new();
    assert_eq!(p.len(), 1);
    assert_eq!(p.identity_at(0).descriptor, 0);
    let t = p.get_first_gamepad_config();
    for b in Button::all() {
        assert_eq!(t.get(b), None);
    }
    assert!(!t.use_left_stick_mouse());
    assert!(!t.use_right_stick_mouse());
}

#[test]
fn from_identities_with_none_connected_is_the_placeholder_profile() {
    let p = Profile::from_identities(&Vec::new());
    assert_eq!(p.len(), 1);
    assert_eq!(p.identity_at(0).descriptor, 0);
}

#[test]
fn loading_with_unknown_connected_controller_adds_empty_table() {
    // Stored profile knows one identity; two controllers are connected.
    let known = ControllerIdentity::from_descriptor(11, "Known pad".to_string());
    let mut p = Profile::from_identities(&vec![known.duplicate()]);
    assert_eq!(p.len(), 1);

    let connected = vec![
        ControllerIdentity::from_descriptor(11, "Known pad".to_string()),
        ControllerIdentity::from_descriptor(22, "New pad".to_string()),
    ];
    p.ensure_identities(&connected);

    // A second table was created for the new identity, with no bindings
    // and both mouse-drive flags off; both identities are present.
    assert_eq!(p.len(), 2);
    assert_eq!(p.find_table_index(11), Some(0));
    assert_eq!(p.find_table_index(22), Some(1));
    assert_eq!(p.identity_at(1).name, "New pad");
    let t = p.table_at(1);
    for b in Button::all() {
        assert_eq!(t.get(b), None);
    }
    assert!(!t.use_left_stick_mouse());
    assert!(!t.use_right_stick_mouse());
}

#[test]
fn ensure_identity_is_idempotent() {
    let mut p = Profile::from_identities(&vec![ControllerIdentity::from_descriptor(
        5,
        "Pad".to_string(),
    )]);
    p.ensure_identity(ControllerIdentity::from_descriptor(5, "Pad again".to_string()));
    assert_eq!(p.len(), 1);
    assert_eq!(p.identity_at(0).name, "Pad");
}

fn two_pad_profile() -> Profile {
    Profile::from_identities(&vec![
        ControllerIdentity::from_descriptor(1, "First".to_string()),
        ControllerIdentity::from_descriptor(2, "Second".to_string()),
    ])
}

#[test]
fn insert_key_to_all_binds_in_every_table() {
    let mut p = two_pad_profile();
    p.insert_key_to_all(Button::DPadUp, Key::Character('w'));
    for i in 0..p.len() {
        assert_eq!(
            p.table_at(i).get(Button::DPadUp),
            Some(MouseButtonOrKey::Key(Key::Character('w')))
        );
    }
}

#[test]
fn insert_mouse_button_to_all_binds_in_every_table() {
    let mut p = two_pad_profile();
    p.insert_mouse_button_to_all(Button::RightTrigger, MouseButton::ScrollUp);
    for i in 0..p.len() {
        assert_eq!(
            p.table_at(i).get(Button::RightTrigger),
            Some(MouseButtonOrKey::MouseButton(MouseButton::ScrollUp))
        );
    }
}

#[test]
fn unset_key_to_all_removes_from_every_table() {
    let mut p = two_pad_profile();
    p.insert_key_to_all(Button::South, Key::Character('s'));
    p.unset_key_to_all(Button::South);
    for i in 0..p.len() {
        assert_eq!(p.table_at(i).get(Button::South), None);
    }
}

#[test]
fn toggle_stick_mouse_to_all_flips_every_table() {
    let mut p = two_pad_profile();
    p.toggle_stick_mouse_to_all(Joystick::Left);
    for i in 0..p.len() {
        assert!(p.table_at(i).use_left_stick_mouse());
        assert!(!p.table_at(i).use_right_stick_mouse());
    }
    p.toggle_stick_mouse_to_all(Joystick::Left);
    for i in 0..p.len() {
        assert!(!p.table_at(i).use_left_stick_mouse());
    }
}

#[test]
fn per_table_edits_touch_only_their_table() {
    let mut p = two_pad_profile();
    p.insert_action_at(1, Button::West, MouseButtonOrKey::Key(Key::Backspace));
    assert_eq!(p.table_at(0).get(Button::West), None);
    assert_eq!(
        p.table_at(1).get(Button::West),
        Some(MouseButtonOrKey::Key(Key::Backspace))
    );
    p.set_stick_mouse_at(1, Joystick::Right, true);
    assert!(!p.table_at(0).use_right_stick_mouse());
    assert!(p.table_at(1).use_right_stick_mouse());
}

#[test]
fn assign_editor_key_binds_mapped_keys_and_reports_it() {
    let mut p = two_pad_profile();
    let bound = p.assign_editor_key_to_all(Button::DPadLeft, EditorKey::Character('a'));
    assert!(bound);
    for i in 0..p.len() {
        assert_eq!(
            p.table_at(i).get(Button::DPadLeft),
            Some(MouseButtonOrKey::Key(Key::Character('a')))
        );
    }
}

#[test]
fn assign_editor_key_ignores_unidentified_keys() {
    let mut p = two_pad_profile();
    let bound = p.assign_editor_key_to_all(Button::DPadLeft, EditorKey::Unidentified);
    assert!(!bound);
    for i in 0..p.len() {
        assert_eq!(p.table_at(i).get(Button::DPadLeft), None);
    }
}
