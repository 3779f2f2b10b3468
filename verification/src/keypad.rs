//! The sixteen-key hexadecimal keypad.
//!
//! The keypad remembers whether each key is up or down, and keeps a queue of
//! the keys that went from down to up since the queue was last cleared. The
//! interpreter polls that queue to implement its wait-for-key instruction
//! without ever blocking.

use std::collections::HashMap;
use vstd::prelude::*;
use vstd::std_specs::convert::FromSpecImpl;

verus! {

broadcast use vstd::std_specs::hash::group_hash_axioms;

/// One of the sixteen logical keys, named after its hexadecimal digit.
#[derive(Debug, PartialEq, Eq, Clone, Copy, Hash, Structural)]
pub enum Key {
    Key0,
    Key1,
    Key2,
    Key3,
    Key4,
    Key5,
    Key6,
    Key7,
    Key8,
    Key9,
    KeyA,
    KeyB,
    KeyC,
    KeyD,
    KeyE,
    KeyF,
}

/// Whether a key is currently held.
#[derive(Debug, PartialEq, Eq, Clone, Copy, Structural)]
pub enum KeyState {
    Down,
    Up,
}

impl Key {
    /// The hexadecimal digit of the key, `0..=15`.
    pub open spec fn spec_code(self) -> u8 {
        match self {
            Key::Key0 => 0x0,
            Key::Key1 => 0x1,
            Key::Key2 => 0x2,
            Key::Key3 => 0x3,
            Key::Key4 => 0x4,
            Key::Key5 => 0x5,
            Key::Key6 => 0x6,
            Key::Key7 => 0x7,
            Key::Key8 => 0x8,
            Key::Key9 => 0x9,
            Key::KeyA => 0xA,
            Key::KeyB => 0xB,
            Key::KeyC => 0xC,
            Key::KeyD => 0xD,
            Key::KeyE => 0xE,
            Key::KeyF => 0xF,
        }
    }

    /// The key with the given digit. Every value above `0xF` stands for
    /// [`Key::Key0`], the default key.
    pub open spec fn spec_from_code(value: u8) -> Key {
        match value {
            0x1 => Key::Key1,
            0x2 => Key::Key2,
            0x3 => Key::Key3,
            0x4 => Key::Key4,
            0x5 => Key::Key5,
            0x6 => Key::Key6,
            0x7 => Key::Key7,
            0x8 => Key::Key8,
            0x9 => Key::Key9,
            0xA => Key::KeyA,
            0xB => Key::KeyB,
            0xC => Key::KeyC,
            0xD => Key::KeyD,
            0xE => Key::KeyE,
            0xF => Key::KeyF,
            _ => Key::Key0,
        }
    }

    /// The hexadecimal digit of the key.
    #[verifier::when_used_as_spec(spec_code)]
    pub fn code(self) -> (value: u8)
        ensures
            value == self.spec_code(),
            value < 16,
    {
        match self {
            Key::Key0 => 0x0,
            Key::Key1 => 0x1,
            Key::Key2 => 0x2,
            Key::Key3 => 0x3,
            Key::Key4 => 0x4,
            Key::Key5 => 0x5,
            Key::Key6 => 0x6,
            Key::Key7 => 0x7,
            Key::Key8 => 0x8,
            Key::Key9 => 0x9,
            Key::KeyA => 0xA,
            Key::KeyB => 0xB,
            Key::KeyC => 0xC,
            Key::KeyD => 0xD,
            Key::KeyE => 0xE,
            Key::KeyF => 0xF,
        }
    }

    /// The key with the given digit; values above `0xF` give [`Key::Key0`].
    #[verifier::when_used_as_spec(spec_from_code)]
    pub fn from_code(value: u8) -> (key: Key)
        ensures
            key == Key::spec_from_code(value),
            value < 16 ==> key.spec_code() == value,
            value >= 16 ==> key == Key::Key0,
    {
        match value {
            0x1 => Key::Key1,
            0x2 => Key::Key2,
            0x3 => Key::Key3,
            0x4 => Key::Key4,
            0x5 => Key::Key5,
            0x6 => Key::Key6,
            0x7 => Key::Key7,
            0x8 => Key::Key8,
            0x9 => Key::Key9,
            0xA => Key::KeyA,
            0xB => Key::KeyB,
            0xC => Key::KeyC,
            0xD => Key::KeyD,
            0xE => Key::KeyE,
            0xF => Key::KeyF,
            _ => Key::Key0,
        }
    }

    /// All sixteen keys in ascending order of their digits.
    pub fn all() -> (keys: [Key; 16])
        ensures
            forall|k: int| 0 <= k < 16 ==> (#[trigger] keys[k]).spec_code() == k,
    {
        [
            Key::Key0,
            Key::Key1,
            Key::Key2,
            Key::Key3,
            Key::Key4,
            Key::Key5,
            Key::Key6,
            Key::Key7,
            Key::Key8,
            Key::Key9,
            Key::KeyA,
            Key::KeyB,
            Key::KeyC,
            Key::KeyD,
            Key::KeyE,
            Key::KeyF,
        ]
    }

    /// Digits and keys correspond one to one.
    pub proof fn lemma_code_round_trip(self)
        ensures
            self.spec_code() < 16,
            Key::spec_from_code(self.spec_code()) == self,
    {
    }
}

impl From<u8> for Key {
    fn from(value: u8) -> (key: Key) {
        Key::from_code(value)
    }
}

impl FromSpecImpl<u8> for Key {
    open spec fn obeys_from_spec() -> bool {
        true
    }

    open spec fn from_spec(value: u8) -> Key {
        Key::spec_from_code(value)
    }
}

impl From<Key> for u8 {
    fn from(key: Key) -> (value: u8) {
        key.code()
    }
}

impl FromSpecImpl<Key> for u8 {
    open spec fn obeys_from_spec() -> bool {
        true
    }

    open spec fn from_spec(key: Key) -> u8 {
        key.spec_code()
    }
}

/// The mathematical content of a [`Keypad`].
#[verifier::ext_equal]
pub struct KeypadView {
    /// The state of every key.
    pub states: Map<Key, KeyState>,
    /// The keys released since the queue was last cleared, oldest first.
    pub released: Seq<Key>,
}

impl KeypadView {
    /// Every key has a state.
    pub open spec fn wf(self) -> bool {
        forall|key: Key| self.states.contains_key(key)
    }

    /// All keys up, nothing released.
    pub open spec fn initial() -> KeypadView {
        KeypadView { states: Map::total(|key: Key| KeyState::Up), released: Seq::empty() }
    }

    /// The keypad after `key` is reported in `state`: the state is recorded,
    /// and a change from down to up is appended to the release queue.
    pub open spec fn set(self, key: Key, state: KeyState) -> KeypadView {
        KeypadView {
            states: self.states.insert(key, state),
            released: if self.states[key] == KeyState::Down && state == KeyState::Up {
                self.released.push(key)
            } else {
                self.released
            },
        }
    }

    /// The oldest queued release, if any.
    pub open spec fn first_released(self) -> Option<Key> {
        if self.released.len() > 0 {
            Some(self.released[0])
        } else {
            None
        }
    }

    /// The keypad with its release queue emptied.
    pub open spec fn clear_released(self) -> KeypadView {
        KeypadView { states: self.states, released: Seq::empty() }
    }
}

/// The state of the sixteen keys together with the queue of recent releases.
#[derive(Debug)]
pub struct Keypad {
    keys: HashMap<u8, KeyState>,
    /// A key is released when it goes from down to up.
    keys_released: Vec<Key>,
}

impl View for Keypad {
    type V = KeypadView;

    closed spec fn view(&self) -> KeypadView {
        KeypadView {
            states: Map::new(
                |key: Key| self.keys@.contains_key(key.spec_code()),
                |key: Key| self.keys@[key.spec_code()],
            ),
            released: self.keys_released@,
        }
    }
}

impl Keypad {
    /// The representation invariant: the table holds exactly the sixteen
    /// digits.
    pub closed spec fn wf(&self) -> bool {
        forall|code: u8| self.keys@.contains_key(code) <==> code < 16
    }

    /// A well-formed keypad has a state for every key.
    pub proof fn lemma_wf_view(&self)
        requires
            self.wf(),
        ensures
            self@.wf(),
    {
    }

    /// A keypad with every key up and an empty release queue.
    pub fn new() -> (keypad: Keypad)
        ensures
            keypad.wf(),
            keypad@ == KeypadView::initial(),
    {
        let mut keys: HashMap<u8, KeyState> = HashMap::new();
        let all = Key::all();
        let mut k: usize = 0;
        while k < 16
            invariant
                k <= 16,
                forall|j: int| 0 <= j < 16 ==> (#[trigger] all[j]).spec_code() == j,
                forall|code: u8| keys@.contains_key(code) <==> code < k,
                forall|code: u8| code < k ==> keys@[code] == KeyState::Up,
            decreases 16 - k,
        {
            keys.insert(all[k].code(), KeyState::Up);
            k += 1;
        }
        let keypad = Keypad { keys, keys_released: Vec::new() };
        assert(keypad@.states =~= KeypadView::initial().states);
        keypad
    }

    /// Records that `key` is now in `key_state`. A key that was down and is
    /// now up joins the back of the release queue.
    pub fn set_key_state(&mut self, key: Key, key_state: KeyState)
        requires
            old(self).wf(),
        ensures
            final(self).wf(),
            final(self)@ == old(self)@.set(key, key_state),
    {
        let old_key_state = self.keys.insert(key.code(), key_state);
        if let Some(old_key_state) = old_key_state {
            if old_key_state == KeyState::Down && key_state == KeyState::Up {
                self.keys_released.push(key);
            }
        }
        proof {
            assert forall|other: Key| other.spec_code() == key.spec_code() implies other == key by {
                other.lemma_code_round_trip();
                key.lemma_code_round_trip();
            }
            assert(self@.states =~= old(self)@.set(key, key_state).states);
        }
    }

    /// The recorded state of `key`.
    pub fn get_key_state(&self, key: Key) -> (state: KeyState)
        requires
            self.wf(),
        ensures
            state == self@.states[key],
    {
        *self.keys.get(&key.code()).unwrap()
    }

    /// Whether `key` is held.
    pub fn is_key_down(&self, key: Key) -> (down: bool)
        requires
            self.wf(),
        ensures
            down <==> self@.states[key] == KeyState::Down,
    {
        self.get_key_state(key) == KeyState::Down
    }

    /// Whether `key` is not held.
    pub fn is_key_up(&self, key: Key) -> (up: bool)
        requires
            self.wf(),
        ensures
            up <==> self@.states[key] == KeyState::Up,
    {
        self.get_key_state(key) == KeyState::Up
    }

    /// The oldest release still in the queue; the queue is left as it is.
    pub fn get_first_key_released(&self) -> (key: Option<Key>)
        ensures
            key == self@.first_released(),
    {
        if self.keys_released.len() > 0 {
            Some(self.keys_released[0])
        } else {
            None
        }
    }

    /// Empties the release queue; the key states stay as they are.
    pub fn clear_keys_released(&mut self)
        requires
            old(self).wf(),
        ensures
            final(self).wf(),
            final(self)@ == old(self)@.clear_released(),
    {
        self.keys_released.clear();
    }
}

} // verus!
