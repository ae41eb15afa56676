//! Keys held down, as reported by the window's input events.
use vstd::prelude::*;

verus! {

/// The set of key codes that are currently pressed.
pub struct UserInput {
    pressed_keys: std::collections::BTreeSet<u32>,
}

impl View for UserInput {
    type V = Set<u32>;

    closed spec fn view(&self) -> Set<u32> {
        self.pressed_keys@
    }
}

impl UserInput {
    /// Input with no key pressed.
    pub fn new() -> (r: UserInput)
        ensures
            r@ == Set::<u32>::empty(),
    {
        UserInput { pressed_keys: std::collections::BTreeSet::new() }
    }

    pub fn add_key(&mut self, key_code: u32)
        ensures
            final(self)@ == old(self)@.insert(key_code),
    {
        broadcast use vstd::std_specs::btree::group_btree_axioms;

        self.pressed_keys.insert(key_code);
    }

    pub fn remove_key(&mut self, key_code: u32)
        ensures
            final(self)@ == old(self)@.remove(key_code),
    {
        broadcast use vstd::std_specs::btree::group_btree_axioms;

        self.pressed_keys.remove(&key_code);
    }

    pub fn is_key_pressed(&self, key_code: u32) -> (r: bool)
        ensures
            r == self@.contains(key_code),
    {
        broadcast use vstd::std_specs::btree::group_btree_axioms;

        self.pressed_keys.contains(&key_code)
    }
}

impl Default for UserInput {
    fn default() -> (r: UserInput)
        ensures
            r@ == Set::<u32>::empty(),
    {
        UserInput::new()
    }
}

} // verus!
