//! Input device state: which keys and mouse buttons are currently held.
//! Translating window-system events into these calls happens outside the
//! library.

use vstd::prelude::*;

verus! {

/// How many key codes the state tracks.
pub const NUM_KEY_CODES: usize = 10;

/// How many mouse buttons the state tracks.
pub const NUM_MOUSE_BUTTONS: usize = 5;

/// The keys whose state the game loop reads.
#[derive(Clone, Copy, PartialEq, Eq, Structural, Debug)]
pub enum KeyCode {
    W,
    S,
    A,
    D,
    Up,
    Down,
    Left,
    Right,
    Q,
    E,
}

/// The state slot of a key.
pub open spec fn spec_key_index(k: KeyCode) -> int {
    match k {
        KeyCode::W => 0,
        KeyCode::S => 1,
        KeyCode::A => 2,
        KeyCode::D => 3,
        KeyCode::Up => 4,
        KeyCode::Down => 5,
        KeyCode::Left => 6,
        KeyCode::Right => 7,
        KeyCode::Q => 8,
        KeyCode::E => 9,
    }
}

/// Holds the state of input devices: one flag per key and per mouse button.
pub struct Input {
    pub key_state: Vec<bool>,
    pub mouse_state: Vec<bool>,
}

impl Input {
    /// The state vectors have their fixed lengths.
    pub open spec fn wf(self) -> bool {
        &&& self.key_state@.len() == NUM_KEY_CODES
        &&& self.mouse_state@.len() == NUM_MOUSE_BUTTONS
    }

    /// All keys and buttons start released.
    pub fn new() -> (r: Input)
        ensures
            r.wf(),
            forall|i: int| 0 <= i < NUM_KEY_CODES ==> !r.key_state@[i],
            forall|i: int| 0 <= i < NUM_MOUSE_BUTTONS ==> !r.mouse_state@[i],
    {
        let mut key_state: Vec<bool> = Vec::new();
        let mut i: usize = 0;
        while i < NUM_KEY_CODES
            invariant
                i <= NUM_KEY_CODES,
                key_state@.len() == i,
                forall|j: int| 0 <= j < i ==> !key_state@[j],
            decreases NUM_KEY_CODES - i,
        {
            key_state.push(false);
            i = i + 1;
        }
        let mut mouse_state: Vec<bool> = Vec::new();
        let mut b: usize = 0;
        while b < NUM_MOUSE_BUTTONS
            invariant
                b <= NUM_MOUSE_BUTTONS,
                mouse_state@.len() == b,
                forall|j: int| 0 <= j < b ==> !mouse_state@[j],
            decreases NUM_MOUSE_BUTTONS - b,
        {
            mouse_state.push(false);
            b = b + 1;
        }
        Input { key_state, mouse_state }
    }

    /// The index of a key's state slot.
    fn key_index(k: KeyCode) -> (r: usize)
        ensures
            r == spec_key_index(k),
    {
        match k {
            KeyCode::W => 0,
            KeyCode::S => 1,
            KeyCode::A => 2,
            KeyCode::D => 3,
            KeyCode::Up => 4,
            KeyCode::Down => 5,
            KeyCode::Left => 6,
            KeyCode::Right => 7,
            KeyCode::Q => 8,
            KeyCode::E => 9,
        }
    }

    /// Marks a key as held.
    pub fn press_key(&mut self, k: KeyCode)
        requires
            old(self).wf(),
        ensures
            final(self).wf(),
            final(self).key_state@ == old(self).key_state@.update(spec_key_index(k), true),
            final(self).mouse_state@ == old(self).mouse_state@,
    {
        let i = Self::key_index(k);
        self.key_state[i] = true;
    }

    /// Marks a key as released.
    pub fn release_key(&mut self, k: KeyCode)
        requires
            old(self).wf(),
        ensures
            final(self).wf(),
            final(self).key_state@ == old(self).key_state@.update(spec_key_index(k), false),
            final(self).mouse_state@ == old(self).mouse_state@,
    {
        let i = Self::key_index(k);
        self.key_state[i] = false;
    }

    /// Marks a mouse button as held. Buttons beyond the tracked range are a
    /// caller error.
    pub fn press_mouse_button(&mut self, b: usize)
        requires
            old(self).wf(),
            b < NUM_MOUSE_BUTTONS,
        ensures
            final(self).wf(),
            final(self).mouse_state@ == old(self).mouse_state@.update(b as int, true),
            final(self).key_state@ == old(self).key_state@,
    {
        self.mouse_state[b] = true;
    }

    /// Marks a mouse button as released. Buttons beyond the tracked range
    /// are a caller error.
    pub fn release_mouse_button(&mut self, b: usize)
        requires
            old(self).wf(),
            b < NUM_MOUSE_BUTTONS,
        ensures
            final(self).wf(),
            final(self).mouse_state@ == old(self).mouse_state@.update(b as int, false),
            final(self).key_state@ == old(self).key_state@,
    {
        self.mouse_state[b] = false;
    }

    /// Whether a key is currently held.
    pub fn get_key(&self, k: KeyCode) -> (r: bool)
        requires
            self.wf(),
        ensures
            r == self.key_state@[spec_key_index(k)],
    {
        let i = Self::key_index(k);
        self.key_state[i]
    }
}

} // verus!
