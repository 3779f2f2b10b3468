use chip8::keypad::{Key, KeyState, Keypad};

#[test]
fn new_keypad_has_every_key_up() {
    let keypad = Keypad::new();
    for key in Key::all() {
        assert_eq!(keypad.get_key_state(key), KeyState::Up);
        assert!(keypad.is_key_up(key));
        assert!(!keypad.is_key_down(key));
    }
    assert_eq!(keypad.get_first_key_released(), None);
}

#[test]
fn pressing_a_key_records_it_without_a_release() {
    let mut keypad = Keypad::new();
    keypad.set_key_state(Key::Key5, KeyState::Down);
    assert_eq!(keypad.get_key_state(Key::Key5), KeyState::Down);
    assert!(keypad.is_key_down(Key::Key5));
    assert!(!keypad.is_key_up(Key::Key5));
    assert!(keypad.is_key_up(Key::Key4));
    assert_eq!(keypad.get_first_key_released(), None);
}

#[test]
fn releasing_a_held_key_queues_it() {
    let mut keypad = Keypad::new();
    keypad.set_key_state(Key::KeyA, KeyState::Down);
    keypad.set_key_state(Key::KeyA, KeyState::Up);
    assert_eq!(keypad.get_key_state(Key::KeyA), KeyState::Up);
    assert_eq!(keypad.get_first_key_released(), Some(Key::KeyA));
    // Reading the queue does not drain it.
    assert_eq!(keypad.get_first_key_released(), Some(Key::KeyA));
}

#[test]
fn a_key_that_stays_up_or_down_is_not_a_release() {
    let mut keypad = Keypad::new();
    keypad.set_key_state(Key::Key1, KeyState::Up);
    assert_eq!(keypad.get_first_key_released(), None);
    keypad.set_key_state(Key::Key1, KeyState::Down);
    keypad.set_key_state(Key::Key1, KeyState::Down);
    assert_eq!(keypad.get_first_key_released(), None);
}

#[test]
fn the_first_release_stays_first() {
    let mut keypad = Keypad::new();
    keypad.set_key_state(Key::Key3, KeyState::Down);
    keypad.set_key_state(Key::Key7, KeyState::Down);
    keypad.set_key_state(Key::Key7, KeyState::Up);
    keypad.set_key_state(Key::Key3, KeyState::Up);
    assert_eq!(keypad.get_first_key_released(), Some(Key::Key7));
}

#[test]
fn clearing_empties_the_queue_and_keeps_the_states() {
    let mut keypad = Keypad::new();
    keypad.set_key_state(Key::Key2, KeyState::Down);
    keypad.set_key_state(Key::Key9, KeyState::Down);
    keypad.set_key_state(Key::Key2, KeyState::Up);
    keypad.clear_keys_released();
    assert_eq!(keypad.get_first_key_released(), None);
    assert!(keypad.is_key_down(Key::Key9));
    assert!(keypad.is_key_up(Key::Key2));
}

#[test]
fn key_codes_run_from_zero_to_fifteen() {
    let keys = Key::all();
    for (k, key) in keys.iter().enumerate() {
        assert_eq!(key.code() as usize, k);
        assert_eq!(Key::from_code(k as u8), *key);
        assert_eq!(u8::from(*key) as usize, k);
        assert_eq!(Key::from(k as u8), *key);
    }
    assert_eq!(Key::KeyC.code(), 0xC);
    assert_eq!(Key::from_code(0xF), Key::KeyF);
}

#[test]
fn a_code_above_fifteen_is_the_default_key() {
    assert_eq!(Key::from_code(0x10), Key::Key0);
    assert_eq!(Key::from_code(0x1F), Key::Key0);
    assert_eq!(Key::from(0xFFu8), Key::Key0);
}
