use vstd::prelude::*;

verus! {

/// Number of keys on the keypad.
pub const KEY_COUNT: usize = 16;

/// Sixteen key-down flags and the key most recently pressed.
pub struct Keypad {
    keys: [bool; 16],
    last_key_pressed: Option<u8>,
}

impl View for Keypad {
    /// Which keys are down, and the last key pressed.
    type V = (Seq<bool>, Option<u8>);

    closed spec fn view(&self) -> (Seq<bool>, Option<u8>) {
        (self.keys@, self.last_key_pressed)
    }
}

/// Whether key `i` is down in `keys`; a key number past the keypad is never down.
pub open spec fn key_down(keys: Seq<bool>, i: int) -> bool {
    0 <= i < keys.len() && keys[i]
}

impl Keypad {
    pub open spec fn wf(&self) -> bool {
        self@.0.len() == KEY_COUNT
    }

    pub fn new() -> (r: Self)
        ensures
            r.wf(),
            r@.0 == Seq::new(KEY_COUNT as nat, |i: int| false),
            r@.1 == None::<u8>,
    {
        let r = Keypad { keys: [false; 16], last_key_pressed: None };
        assert(r.keys@ =~= Seq::new(KEY_COUNT as nat, |i: int| false));
        r
    }

    /// Whether key `i` is down; false for a number that names no key.
    pub fn get_key(&self, i: u8) -> (r: bool)
        requires
            self.wf(),
        ensures
            r == key_down(self@.0, i as int),
    {
        if (i as usize) < KEY_COUNT {
            self.keys[i as usize]
        } else {
            false
        }
    }

    /// The key most recently pressed, if any.
    pub fn get_key_pressed(&self) -> (r: Option<u8>)
        ensures
            r == self@.1,
    {
        self.last_key_pressed
    }

    /// Marks `key` down and records it as the last key pressed.
    pub fn press_key(&mut self, key: u8)
        requires
            old(self).wf(),
            key < KEY_COUNT,
        ensures
            final(self).wf(),
            final(self)@.0 == old(self)@.0.update(key as int, true),
            final(self)@.1 == Some(key),
    {
        self.keys[key as usize] = true;
        self.last_key_pressed = Some(key);
    }

    /// Releases every key and forgets the last key pressed.
    pub fn clear(&mut self)
        requires
            old(self).wf(),
        ensures
            final(self).wf(),
            final(self)@.0 == Seq::new(KEY_COUNT as nat, |i: int| false),
            final(self)@.1 == None::<u8>,
    {
        let mut k: usize = 0;
        while k < KEY_COUNT
            invariant
                k <= KEY_COUNT,
                self.keys@.len() == KEY_COUNT,
                forall|j: int| 0 <= j < k ==> !self.keys@[j],
            decreases KEY_COUNT - k,
        {
            self.keys[k] = false;
            k = k + 1;
        }
        self.last_key_pressed = None;
        assert(self.keys@ =~= Seq::new(KEY_COUNT as nat, |i: int| false));
    }
}

} // verus!
