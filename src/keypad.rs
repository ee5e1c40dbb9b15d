use vstd::prelude::*;

verus! {

/// What the input side reports for one cycle: which of the sixteen keys are held, and
/// the key newly pressed, if any.
#[derive(Clone, Copy, Debug, PartialEq, Eq)]
pub struct Keypad {
    pub down: [bool; 16],
    pub pressed: Option<u8>,
}

impl Keypad {
    /// No key held, none pressed.
    pub fn new() -> (r: Keypad)
        ensures
            forall|k: int| 0 <= k < 16 ==> !r.down@[k],
            r.pressed is None,
    {
        Keypad { down: [false; 16], pressed: None }
    }

    /// Whether the key with value `key` is held; a value above 0xF names no key.
    pub fn is_key_down(&self, key: u8) -> (r: bool)
        ensures
            r == key_down(*self, key),
    {
        if key < 16 {
            self.down[key as usize]
        } else {
            false
        }
    }
}

pub open spec fn key_down(k: Keypad, key: u8) -> bool {
    key < 16 && k.down@[key as int]
}

} // verus!
