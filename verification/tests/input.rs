use render_core::input::{Key, KeySet, Motion, RetainedInput, ANGULAR_SPEED_MILLI, LINEAR_SPEED_MILLI};

const ALL: [Key; 10] =
    [Key::W, Key::A, Key::S, Key::D, Key::Q, Key::E, Key::I, Key::J, Key::K, Key::L];

fn held(keys: &[Key]) -> RetainedInput {
    let mut input = RetainedInput::new();
    for key in keys {
        input.held_keys.insert(*key);
    }
    input
}

fn still() -> Motion {
    Motion { right: 0, forward: 0, up: 0, yaw: 0, pitch: 0 }
}

#[test]
fn speeds() {
    assert_eq!(LINEAR_SPEED_MILLI, 10);
    assert_eq!(ANGULAR_SPEED_MILLI, 3);
}

#[test]
fn new_set_holds_no_key() {
    let keys = KeySet::new();
    for key in ALL {
        assert!(!keys.contains(key));
    }
}

#[test]
fn insert_and_remove_tell_what_changed() {
    let mut keys = KeySet::new();
    for key in ALL {
        assert!(keys.insert(key));
        assert!(keys.contains(key));
        assert!(!keys.insert(key));
        assert!(keys.contains(key));
    }
    for key in ALL {
        assert!(keys.remove(key));
        assert!(!keys.contains(key));
        assert!(!keys.remove(key));
    }
}

#[test]
fn insert_touches_one_key_only() {
    for key in ALL {
        let mut keys = KeySet::new();
        keys.insert(key);
        for other in ALL {
            assert_eq!(keys.contains(other), other == key);
        }
        let mut keys = held(&ALL).held_keys;
        keys.remove(key);
        for other in ALL {
            assert_eq!(keys.contains(other), other != key);
        }
    }
}

#[test]
fn no_key_no_motion() {
    assert_eq!(RetainedInput::new().motion(), still());
}

#[test]
fn each_key_moves_along_its_own_direction() {
    assert_eq!(held(&[Key::W]).motion(), Motion { forward: 1, ..still() });
    assert_eq!(held(&[Key::S]).motion(), Motion { forward: -1, ..still() });
    assert_eq!(held(&[Key::D]).motion(), Motion { right: 1, ..still() });
    assert_eq!(held(&[Key::A]).motion(), Motion { right: -1, ..still() });
    assert_eq!(held(&[Key::E]).motion(), Motion { up: 1, ..still() });
    assert_eq!(held(&[Key::Q]).motion(), Motion { up: -1, ..still() });
    assert_eq!(held(&[Key::J]).motion(), Motion { yaw: 1, ..still() });
    assert_eq!(held(&[Key::L]).motion(), Motion { yaw: -1, ..still() });
    assert_eq!(held(&[Key::I]).motion(), Motion { pitch: 1, ..still() });
    assert_eq!(held(&[Key::K]).motion(), Motion { pitch: -1, ..still() });
}

#[test]
fn keys_held_together_add_up() {
    assert_eq!(
        held(&[Key::W, Key::A, Key::E, Key::L, Key::I]).motion(),
        Motion { right: -1, forward: 1, up: 1, yaw: -1, pitch: 1 }
    );
}

#[test]
fn opposite_keys_cancel() {
    assert_eq!(held(&[Key::W, Key::S]).motion(), still());
    assert_eq!(held(&[Key::A, Key::D, Key::Q]).motion(), Motion { up: -1, ..still() });
    assert_eq!(held(&ALL).motion(), still());
}

#[test]
fn default_input_holds_no_key() {
    let input = RetainedInput::default();
    for key in ALL {
        assert!(!input.held_keys.contains(key));
    }
}
