use vstd::prelude::*;

use crate::error::Chip8Error;

verus! {

/// Size of the address space in bytes.
pub const RAM_SIZE: usize = 4096;

/// Address at which a program is placed.
pub const ROM_STARTING_ADDRESS: usize = 0x200;

/// Bytes taken by the built-in font: sixteen glyphs of five rows.
pub const FONT_MAP_SIZE: usize = 80;

/// The built-in hexadecimal font, glyph `d` at offset `5 * d`.
pub open spec fn font_map() -> Seq<u8> {
    seq![
        0xF0u8, 0x90, 0x90, 0x90, 0xF0, 0x20, 0x60, 0x20, 0x20, 0x70,
        0xF0, 0x10, 0xF0, 0x80, 0xF0, 0xF0, 0x10, 0xF0, 0x10, 0xF0,
        0x90, 0x90, 0xF0, 0x10, 0x10, 0xF0, 0x80, 0xF0, 0x10, 0xF0,
        0xF0, 0x80, 0xF0, 0x90, 0xF0, 0xF0, 0x10, 0x20, 0x40, 0x40,
        0xF0, 0x90, 0xF0, 0x90, 0xF0, 0xF0, 0x90, 0xF0, 0x10, 0xF0,
        0xF0, 0x90, 0xF0, 0x90, 0x90, 0xE0, 0x90, 0xE0, 0x90, 0xE0,
        0xF0, 0x80, 0x80, 0x80, 0xF0, 0xE0, 0x90, 0x90, 0x90, 0xE0,
        0xF0, 0x80, 0xF0, 0x80, 0xF0, 0xF0, 0x80, 0xF0, 0x80, 0x80,
    ]
}

/// Memory right after loading `rom`: the font, zeros, the program at its
/// load address, zeros up to the end.
pub open spec fn loaded_ram(rom: Seq<u8>) -> Seq<u8> {
    Seq::new(
        RAM_SIZE as nat,
        |a: int|
            if a < FONT_MAP_SIZE {
                font_map()[a]
            } else if ROM_STARTING_ADDRESS <= a < ROM_STARTING_ADDRESS + rom.len() {
                rom[a - ROM_STARTING_ADDRESS]
            } else {
                0u8
            },
    )
}

/// The address that `addr` denotes: addresses wrap around the address space.
pub open spec fn wrap_addr(addr: int) -> int {
    addr % (RAM_SIZE as int)
}

fn font_bytes() -> (r: [u8; 80])
    ensures
        r@ == font_map(),
{
    let r: [u8; 80] = [
        0xF0, 0x90, 0x90, 0x90, 0xF0, 0x20, 0x60, 0x20, 0x20, 0x70,
        0xF0, 0x10, 0xF0, 0x80, 0xF0, 0xF0, 0x10, 0xF0, 0x10, 0xF0,
        0x90, 0x90, 0xF0, 0x10, 0x10, 0xF0, 0x80, 0xF0, 0x10, 0xF0,
        0xF0, 0x80, 0xF0, 0x90, 0xF0, 0xF0, 0x10, 0x20, 0x40, 0x40,
        0xF0, 0x90, 0xF0, 0x90, 0xF0, 0xF0, 0x90, 0xF0, 0x10, 0xF0,
        0xF0, 0x90, 0xF0, 0x90, 0x90, 0xE0, 0x90, 0xE0, 0x90, 0xE0,
        0xF0, 0x80, 0x80, 0x80, 0xF0, 0xE0, 0x90, 0x90, 0x90, 0xE0,
        0xF0, 0x80, 0xF0, 0x80, 0xF0, 0xF0, 0x80, 0xF0, 0x80, 0x80,
    ];
    assert(r@ =~= font_map());
    r
}

/// The flat byte-addressed memory of the machine.
pub struct Mmu {
    ram: Vec<u8>,
}

impl View for Mmu {
    type V = Seq<u8>;

    closed spec fn view(&self) -> Seq<u8> {
        self.ram@
    }
}

impl Mmu {
    pub open spec fn wf(&self) -> bool {
        self@.len() == RAM_SIZE
    }

    /// Builds memory holding the font and `rom_data` at its load address;
    /// fails when the program does not fit.
    pub fn load(rom_data: &[u8]) -> (r: Result<Self, Chip8Error>)
        ensures
            rom_data@.len() <= RAM_SIZE - ROM_STARTING_ADDRESS <==> r is Ok,
            r matches Ok(m) ==> m.wf() && m@ == loaded_ram(rom_data@),
            r matches Err(e) ==> e == Chip8Error::RomTooLarge,
    {
        if rom_data.len() > RAM_SIZE - ROM_STARTING_ADDRESS {
            return Err(Chip8Error::RomTooLarge);
        }
        let font = font_bytes();
        let mut ram: Vec<u8> = Vec::new();
        let mut a: usize = 0;
        while a < RAM_SIZE
            invariant
                a <= RAM_SIZE,
                rom_data@.len() <= RAM_SIZE - ROM_STARTING_ADDRESS,
                font@ == font_map(),
                ram@ == loaded_ram(rom_data@).subrange(0, a as int),
            decreases RAM_SIZE - a,
        {
            let b: u8 = if a < FONT_MAP_SIZE {
                font[a]
            } else if ROM_STARTING_ADDRESS <= a && a < ROM_STARTING_ADDRESS + rom_data.len() {
                rom_data[a - ROM_STARTING_ADDRESS]
            } else {
                0
            };
            ram.push(b);
            a = a + 1;
            assert(ram@ =~= loaded_ram(rom_data@).subrange(0, a as int));
        }
        assert(ram@ =~= loaded_ram(rom_data@));
        Ok(Mmu { ram })
    }

    /// The byte at `addr`, taken modulo the size of memory.
    pub fn read_byte(&self, addr: u16) -> (r: u8)
        requires
            self.wf(),
        ensures
            r == self@[wrap_addr(addr as int)],
    {
        self.ram[addr as usize % RAM_SIZE]
    }

    /// Stores `value` at `addr`, taken modulo the size of memory.
    pub fn write_byte(&mut self, addr: u16, value: u8)
        requires
            old(self).wf(),
        ensures
            final(self).wf(),
            final(self)@ == old(self)@.update(wrap_addr(addr as int), value),
    {
        self.ram.set(addr as usize % RAM_SIZE, value);
    }
}

} // verus!
