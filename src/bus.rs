use vstd::prelude::*;

use crate::display::{Display, Screen, blit, blank, screen_view};
use crate::keypad::{KEY_COUNT, Keypad, key_down};
use crate::mmu::{Mmu, RAM_SIZE, wrap_addr};

verus! {

/// What the engine sees of its surroundings: memory, framebuffer and keypad.
pub struct BusState {
    pub memory: Seq<u8>,
    pub screen: Seq<Seq<u8>>,
    pub keys: Seq<bool>,
    pub last_key: Option<u8>,
}

/// Memory, display and keypad, owned together and handed to the engine.
pub struct Bus {
    memory: Mmu,
    display: Display,
    keypad: Keypad,
}

impl View for Bus {
    type V = BusState;

    closed spec fn view(&self) -> BusState {
        BusState {
            memory: self.memory@,
            screen: self.display@,
            keys: self.keypad@.0,
            last_key: self.keypad@.1,
        }
    }
}

impl Bus {
    pub open spec fn wf(&self) -> bool {
        self@.memory.len() == RAM_SIZE && self@.keys.len() == KEY_COUNT
    }

    pub fn new(memory: Mmu, display: Display, keypad: Keypad) -> (r: Self)
        requires
            memory.wf(),
            keypad.wf(),
        ensures
            r.wf(),
            r@ == (BusState {
                memory: memory@,
                screen: display@,
                keys: keypad@.0,
                last_key: keypad@.1,
            }),
    {
        Self { memory, display, keypad }
    }

    /// Marks `key` down and records it as the last key pressed.
    pub fn press_key(&mut self, key: u8)
        requires
            old(self).wf(),
            key < KEY_COUNT,
        ensures
            final(self).wf(),
            final(self)@ == (BusState {
                keys: old(self)@.keys.update(key as int, true),
                last_key: Some(key),
                ..old(self)@
            }),
    {
        self.keypad.press_key(key);
    }

    /// Whether key `i` is down.
    pub fn get_key(&self, i: u8) -> (r: bool)
        requires
            self.wf(),
        ensures
            r == key_down(self@.keys, i as int),
    {
        self.keypad.get_key(i)
    }

    /// The key most recently pressed, if any.
    pub fn get_key_pressed(&self) -> (r: Option<u8>)
        ensures
            r == self@.last_key,
    {
        self.keypad.get_key_pressed()
    }

    /// Releases every key.
    pub fn reset_keypad(&mut self)
        requires
            old(self).wf(),
        ensures
            final(self).wf(),
            final(self)@ == (BusState {
                keys: Seq::new(KEY_COUNT as nat, |i: int| false),
                last_key: None,
                ..old(self)@
            }),
    {
        self.keypad.clear();
    }

    /// Stores `value` at `addr`, wrapping around the address space.
    pub fn write_byte(&mut self, addr: u16, value: u8)
        requires
            old(self).wf(),
        ensures
            final(self).wf(),
            final(self)@ == (BusState {
                memory: old(self)@.memory.update(wrap_addr(addr as int), value),
                ..old(self)@
            }),
    {
        self.memory.write_byte(addr, value);
    }

    /// The byte at `addr`, wrapping around the address space.
    pub fn read_byte(&self, addr: u16) -> (r: u8)
        requires
            self.wf(),
        ensures
            r == self@.memory[wrap_addr(addr as int)],
    {
        self.memory.read_byte(addr)
    }

    /// Turns every pixel off.
    pub fn clear_display(&mut self)
        requires
            old(self).wf(),
        ensures
            final(self).wf(),
            final(self)@ == (BusState { screen: blank(), ..old(self)@ }),
    {
        self.display.clear();
    }

    /// Draws `sprite` at `(x, y)`; returns whether a lit pixel was hit.
    pub fn draw(&mut self, x: u16, y: u16, sprite: Vec<u8>) -> (r: bool)
        requires
            old(self).wf(),
        ensures
            final(self).wf(),
            (final(self)@.screen, r) == blit(old(self)@.screen, x as int, y as int, sprite@),
            final(self)@ == (BusState { screen: final(self)@.screen, ..old(self)@ }),
    {
        self.display.draw(x, y, sprite)
    }

    /// A copy of the framebuffer.
    pub fn get_pixels(&self) -> (r: Screen)
        ensures
            screen_view(r) == self@.screen,
    {
        self.display.get_pixels()
    }
}

} // verus!
