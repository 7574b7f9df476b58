use vstd::prelude::*;

verus! {

/// The number of keys of the CHIP-8 keypad, `0x0` to `0xF`.
pub const KEY_COUNT: usize = 16;

/// Which keys of the keypad are held down, as last sampled from the host.
pub struct Keyboard {
    pub pressed: Vec<bool>,
}

impl Keyboard {
    pub open spec fn wf(&self) -> bool {
        self.pressed.len() == KEY_COUNT
    }

    /// A keypad with no key held.
    pub fn new() -> (k: Keyboard)
        ensures
            k.wf(),
            k.pressed@ == Seq::new(KEY_COUNT as nat, |i: int| false),
    {
        let mut pressed: Vec<bool> = Vec::new();
        while pressed.len() < KEY_COUNT
            invariant
                pressed.len() <= KEY_COUNT,
                forall|i: int| 0 <= i < pressed.len() ==> !pressed@[i],
            decreases KEY_COUNT - pressed.len(),
        {
            pressed.push(false);
        }
        assert(pressed@ =~= Seq::new(KEY_COUNT as nat, |i: int| false));
        Keyboard { pressed }
    }

    /// Whether `key` is held; a value above `0xF` names no key.
    pub fn is_pressed(&self, key: u8) -> (r: bool)
        requires
            self.wf(),
        ensures
            r == ((key as int) < KEY_COUNT && self.pressed@[key as int]),
    {
        if (key as usize) < KEY_COUNT {
            self.pressed[key as usize]
        } else {
            false
        }
    }

    /// Records whether `key` is held.
    pub fn set_key_state(&mut self, key: u8, down: bool)
        requires
            old(self).wf(),
            (key as int) < KEY_COUNT,
        ensures
            final(self).wf(),
            final(self).pressed@ == old(self).pressed@.update(key as int, down),
    {
        self.pressed.set(key as usize, down);
    }
}

} // verus!
