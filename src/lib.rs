//! A CHIP-8 interpreter core: the instruction engine, its call stack, memory,
//! keypad state and the framebuffer with its sprite blit.
use vstd::prelude::*;

pub mod bus;
pub mod cpu;
pub mod display;
pub mod error;
pub mod keypad;
pub mod laws;
pub mod mmu;
pub mod stack;

use crate::bus::{Bus, BusState};
use crate::cpu::{Cpu, CpuState, PROGRAM_START, REGISTER_COUNT, tick_spec, timers_spec};
use crate::display::{Display, Screen, blank, screen_view};
use crate::error::Chip8Error;
use crate::keypad::{KEY_COUNT, Keypad};
use crate::mmu::{Mmu, RAM_SIZE, ROM_STARTING_ADDRESS, loaded_ram};

verus! {

/// A whole machine: the engine and what it is wired to.
pub struct Chip8 {
    cpu: Cpu,
    bus: Bus,
}

impl Chip8 {
    pub closed spec fn cpu_state(&self) -> CpuState {
        self.cpu@
    }

    pub closed spec fn bus_state(&self) -> BusState {
        self.bus@
    }

    pub closed spec fn wf(&self) -> bool {
        self.cpu.wf() && self.bus.wf()
    }

    /// A machine with `rom_data` loaded and the engine at the program start;
    /// fails when the program does not fit in memory.
    pub fn new(rom_data: &[u8]) -> (r: Result<Self, Chip8Error>)
        ensures
            rom_data@.len() <= RAM_SIZE - ROM_STARTING_ADDRESS <==> r is Ok,
            r matches Err(e) ==> e == Chip8Error::RomTooLarge,
            r matches Ok(m) ==> m.wf() && m.bus_state() == (BusState {
                memory: loaded_ram(rom_data@),
                screen: blank(),
                keys: Seq::new(KEY_COUNT as nat, |i: int| false),
                last_key: None,
            }) && m.cpu_state() == (CpuState {
                pc: PROGRAM_START,
                v: Seq::new(REGISTER_COUNT as nat, |k: int| 0u8),
                i: 0,
                stack: Seq::empty(),
                dt: 0,
                st: 0,
            }),
    {
        let memory = Mmu::load(rom_data)?;
        let bus = Bus::new(memory, Display::new(), Keypad::new());
        Ok(Chip8 { cpu: Cpu::new(), bus })
    }

    /// Advances the timers one step; returns whether the beep is due now.
    pub fn update_timers(&mut self) -> (beep: bool)
        requires
            old(self).wf(),
        ensures
            final(self).wf(),
            final(self).cpu_state() == timers_spec(old(self).cpu_state()),
            final(self).bus_state() == old(self).bus_state(),
            beep == (old(self).cpu_state().st == 1),
    {
        self.cpu.tick_timers()
    }

    /// Marks `key` down.
    pub fn press_key(&mut self, key: u8)
        requires
            old(self).wf(),
            key < KEY_COUNT,
        ensures
            final(self).wf(),
            final(self).cpu_state() == old(self).cpu_state(),
            final(self).bus_state() == (BusState {
                keys: old(self).bus_state().keys.update(key as int, true),
                last_key: Some(key),
                ..old(self).bus_state()
            }),
    {
        self.bus.press_key(key);
    }

    /// Releases every key.
    pub fn clear_key(&mut self)
        requires
            old(self).wf(),
        ensures
            final(self).wf(),
            final(self).cpu_state() == old(self).cpu_state(),
            final(self).bus_state() == (BusState {
                keys: Seq::new(KEY_COUNT as nat, |i: int| false),
                last_key: None,
                ..old(self).bus_state()
            }),
    {
        self.bus.reset_keypad();
    }

    /// Runs one instruction cycle.
    pub fn update(&mut self) -> (r: Result<(), Chip8Error>)
        requires
            old(self).wf(),
        ensures
            final(self).wf(),
            exists|rnd: u8|
                (final(self).cpu_state(), final(self).bus_state(), r) == tick_spec(
                    old(self).cpu_state(),
                    old(self).bus_state(),
                    rnd,
                ),
    {
        let ghost c0 = self.cpu_state();
        let ghost b0 = self.bus_state();
        let r = self.cpu.tick(&mut self.bus);
        proof {
            let rnd = choose|rnd: u8| (self.cpu@, self.bus@, r) == tick_spec(c0, b0, rnd);
            assert((self.cpu_state(), self.bus_state(), r) == tick_spec(c0, b0, rnd));
        }
        r
    }

    /// A copy of the framebuffer.
    pub fn get_pixels(&self) -> (r: Screen)
        ensures
            screen_view(r) == self.bus_state().screen,
    {
        self.bus.get_pixels()
    }

    /// The engine, for inspection.
    pub fn cpu(&self) -> (r: &Cpu)
        ensures
            r@ == self.cpu_state(),
    {
        &self.cpu
    }

    /// Memory, display and keypad, for inspection.
    pub fn bus(&self) -> (r: &Bus)
        ensures
            r@ == self.bus_state(),
    {
        &self.bus
    }
}

} // verus!
