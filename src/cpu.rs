use vstd::prelude::*;

use crate::bus::{Bus, BusState};
use crate::display::{blank, blit};
use crate::error::Chip8Error;
use crate::keypad::key_down;
use crate::mmu::{RAM_SIZE, wrap_addr};
use crate::stack::{STACK_SIZE, Stack};

verus! {

/// Number of general-purpose registers.
pub const REGISTER_COUNT: usize = 16;

/// Index of the register that receives carry, borrow and collision flags.
pub const FLAG_REGISTER: usize = 15;

/// Address at which execution starts.
pub const PROGRAM_START: u16 = 0x200;

/// One decoded instruction. Register operands are indices below 16.
#[derive(Debug, Clone, Copy, PartialEq, Eq, Structural)]
pub enum Instruction {
    Cls,
    Ret,
    Jp(u16),
    Call(u16),
    SeByte(u8, u8),
    SneByte(u8, u8),
    SeReg(u8, u8),
    LdByte(u8, u8),
    AddByte(u8, u8),
    LdReg(u8, u8),
    Or(u8, u8),
    And(u8, u8),
    Xor(u8, u8),
    AddReg(u8, u8),
    Sub(u8, u8),
    Shr(u8),
    Subn(u8, u8),
    Shl(u8),
    SneReg(u8, u8),
    LdI(u16),
    JpV0(u16),
    Rnd(u8, u8),
    Drw(u8, u8, u8),
    Skp(u8),
    Sknp(u8),
    LdVxDt(u8),
    LdVxK(u8),
    LdDtVx(u8),
    LdStVx(u8),
    AddI(u8),
    LdF(u8),
    LdB(u8),
    LdIVx(u8),
    LdVxI(u8),
}

/// Nibble `k` of `op`, counting from the most significant (0 to 3).
pub open spec fn nibble(op: u16, k: int) -> u8 {
    if k == 0 {
        ((op >> 12u16) & 0xFu16) as u8
    } else if k == 1 {
        ((op >> 8u16) & 0xFu16) as u8
    } else if k == 2 {
        ((op >> 4u16) & 0xFu16) as u8
    } else {
        (op & 0xFu16) as u8
    }
}

/// The instruction that `op` encodes, if any.
pub open spec fn decode_spec(op: u16) -> Option<Instruction> {
    let nnn = op & 0xFFFu16;
    let kk = (op & 0xFFu16) as u8;
    let x = nibble(op, 1);
    let y = nibble(op, 2);
    let n = nibble(op, 3);
    match (nibble(op, 0), x, y, n) {
        (0x0, 0x0, 0xE, 0x0) => Some(Instruction::Cls),
        (0x0, 0x0, 0xE, 0xE) => Some(Instruction::Ret),
        (0x1, _, _, _) => Some(Instruction::Jp(nnn)),
        (0x2, _, _, _) => Some(Instruction::Call(nnn)),
        (0x3, _, _, _) => Some(Instruction::SeByte(x, kk)),
        (0x4, _, _, _) => Some(Instruction::SneByte(x, kk)),
        (0x5, _, _, 0x0) => Some(Instruction::SeReg(x, y)),
        (0x6, _, _, _) => Some(Instruction::LdByte(x, kk)),
        (0x7, _, _, _) => Some(Instruction::AddByte(x, kk)),
        (0x8, _, _, 0x0) => Some(Instruction::LdReg(x, y)),
        (0x8, _, _, 0x1) => Some(Instruction::Or(x, y)),
        (0x8, _, _, 0x2) => Some(Instruction::And(x, y)),
        (0x8, _, _, 0x3) => Some(Instruction::Xor(x, y)),
        (0x8, _, _, 0x4) => Some(Instruction::AddReg(x, y)),
        (0x8, _, _, 0x5) => Some(Instruction::Sub(x, y)),
        (0x8, _, _, 0x6) => Some(Instruction::Shr(x)),
        (0x8, _, _, 0x7) => Some(Instruction::Subn(x, y)),
        (0x8, _, _, 0xE) => Some(Instruction::Shl(x)),
        (0x9, _, _, 0x0) => Some(Instruction::SneReg(x, y)),
        (0xA, _, _, _) => Some(Instruction::LdI(nnn)),
        (0xB, _, _, _) => Some(Instruction::JpV0(nnn)),
        (0xC, _, _, _) => Some(Instruction::Rnd(x, kk)),
        (0xD, _, _, _) => Some(Instruction::Drw(x, y, n)),
        (0xE, _, 0x9, 0xE) => Some(Instruction::Skp(x)),
        (0xE, _, 0xA, 0x1) => Some(Instruction::Sknp(x)),
        (0xF, _, 0x0, 0x7) => Some(Instruction::LdVxDt(x)),
        (0xF, _, 0x0, 0xA) => Some(Instruction::LdVxK(x)),
        (0xF, _, 0x1, 0x5) => Some(Instruction::LdDtVx(x)),
        (0xF, _, 0x1, 0x8) => Some(Instruction::LdStVx(x)),
        (0xF, _, 0x1, 0xE) => Some(Instruction::AddI(x)),
        (0xF, _, 0x2, 0x9) => Some(Instruction::LdF(x)),
        (0xF, _, 0x3, 0x3) => Some(Instruction::LdB(x)),
        (0xF, _, 0x5, 0x5) => Some(Instruction::LdIVx(x)),
        (0xF, _, 0x6, 0x5) => Some(Instruction::LdVxI(x)),
        _ => None,
    }
}

/// Registers, counters, timers and call stack of the engine.
pub struct CpuState {
    pub pc: u16,
    pub v: Seq<u8>,
    pub i: u16,
    pub stack: Seq<u16>,
    pub dt: u8,
    pub st: u8,
}

/// `a` reduced to sixteen bits, as program counter and index arithmetic wraps.
pub open spec fn wrap16(a: int) -> u16 {
    (a % 0x10000) as u16
}

/// `a` reduced to eight bits, as register arithmetic wraps.
pub open spec fn wrap8(a: int) -> u8 {
    (a % 0x100) as u8
}

/// The flag value of a condition.
pub open spec fn flag(b: bool) -> u8 {
    if b {
        1
    } else {
        0
    }
}

impl CpuState {
    pub open spec fn with_v(self, x: int, val: u8) -> CpuState {
        CpuState { v: self.v.update(x, val), ..self }
    }

    pub open spec fn with_pc(self, pc: u16) -> CpuState {
        CpuState { pc, ..self }
    }

    /// Passes over the next instruction when `cond` holds.
    pub open spec fn skip_if(self, cond: bool) -> CpuState {
        if cond {
            self.with_pc(wrap16(self.pc + 2))
        } else {
            self
        }
    }
}

/// `n` sprite rows read from memory from address `i` on.
pub open spec fn sprite_rows(mem: Seq<u8>, i: u16, n: u8) -> Seq<u8> {
    Seq::new(n as nat, |r: int| mem[wrap_addr(i + r)])
}

/// Memory with the decimal digits of `val` at `i`, `i + 1`, `i + 2`.
pub open spec fn store_bcd(mem: Seq<u8>, i: u16, val: u8) -> Seq<u8> {
    mem.update(wrap_addr(i as int), (val / 100) as u8).update(
        wrap_addr(i + 1),
        ((val % 100) / 10) as u8,
    ).update(wrap_addr(i + 2), (val % 10) as u8)
}

/// Memory with registers `0..n` written in order from address `i` on.
pub open spec fn store_regs(mem: Seq<u8>, i: u16, v: Seq<u8>, n: int) -> Seq<u8>
    decreases n,
{
    if n <= 0 {
        mem
    } else {
        store_regs(mem, i, v, n - 1).update(wrap_addr(i + n - 1), v[n - 1])
    }
}

/// Registers with `0..n` read from memory from address `i` on.
pub open spec fn load_regs(v: Seq<u8>, mem: Seq<u8>, i: u16, n: int) -> Seq<u8> {
    Seq::new(v.len(), |k: int| if k < n { mem[wrap_addr(i + k)] } else { v[k] })
}

/// The effect of an instruction that reads and writes registers only.
pub open spec fn cpu_step(c: CpuState, ins: Instruction, rnd: u8) -> CpuState {
    let v = c.v;
    match ins {
        Instruction::Jp(nnn) => c.with_pc(nnn),
        Instruction::SeByte(x, kk) => c.skip_if(v[x as int] == kk),
        Instruction::SneByte(x, kk) => c.skip_if(v[x as int] != kk),
        Instruction::SeReg(x, y) => c.skip_if(v[x as int] == v[y as int]),
        Instruction::SneReg(x, y) => c.skip_if(v[x as int] != v[y as int]),
        Instruction::LdByte(x, kk) => c.with_v(x as int, kk),
        Instruction::AddByte(x, kk) => c.with_v(x as int, wrap8(v[x as int] + kk)),
        Instruction::LdReg(x, y) => c.with_v(x as int, v[y as int]),
        Instruction::Or(x, y) => c.with_v(x as int, v[x as int] | v[y as int]),
        Instruction::And(x, y) => c.with_v(x as int, v[x as int] & v[y as int]),
        Instruction::Xor(x, y) => c.with_v(x as int, v[x as int] ^ v[y as int]),
        Instruction::AddReg(x, y) => c.with_v(x as int, wrap8(v[x as int] + v[y as int])).with_v(
            FLAG_REGISTER as int,
            flag(v[x as int] + v[y as int] > 0xFF),
        ),
        Instruction::Sub(x, y) => c.with_v(x as int, wrap8(v[x as int] - v[y as int])).with_v(
            FLAG_REGISTER as int,
            flag(v[x as int] >= v[y as int]),
        ),
        Instruction::Shr(x) => c.with_v(x as int, (v[x as int] / 2) as u8).with_v(
            FLAG_REGISTER as int,
            (v[x as int] % 2) as u8,
        ),
        Instruction::Subn(x, y) => c.with_v(y as int, wrap8(v[y as int] - v[x as int])).with_v(
            FLAG_REGISTER as int,
            flag(v[y as int] >= v[x as int]),
        ),
        Instruction::Shl(x) => c.with_v(x as int, wrap8(v[x as int] * 2)).with_v(
            FLAG_REGISTER as int,
            v[x as int] & 0x80u8,
        ),
        Instruction::LdI(nnn) => CpuState { i: nnn, ..c },
        Instruction::JpV0(nnn) => c.with_pc(wrap8(v[0] + nnn % 0x100) as u16),
        Instruction::Rnd(x, kk) => c.with_v(x as int, rnd & kk),
        Instruction::LdVxDt(x) => c.with_v(x as int, c.dt),
        Instruction::LdDtVx(x) => CpuState { dt: v[x as int], ..c },
        Instruction::LdStVx(x) => CpuState { st: v[x as int], ..c },
        Instruction::AddI(x) => CpuState { i: wrap16(c.i + v[x as int]), ..c },
        Instruction::LdF(x) => CpuState { i: (v[x as int] * 5) as u16, ..c },
        _ => c,
    }
}

/// The effect of executing `ins` (the program counter already past it), with
/// `rnd` as the random byte; an error leaves everything as it was.
pub open spec fn exec_spec(c: CpuState, b: BusState, ins: Instruction, rnd: u8) -> Result<
    (CpuState, BusState),
    Chip8Error,
> {
    let v = c.v;
    match ins {
        Instruction::Cls => Ok((c, BusState { screen: blank(), ..b })),
        Instruction::Ret => if c.stack.len() == 0 {
            Err(Chip8Error::StackUnderflow)
        } else {
            Ok((CpuState { pc: c.stack.last(), stack: c.stack.drop_last(), ..c }, b))
        },
        Instruction::Call(nnn) => if c.stack.len() >= STACK_SIZE {
            Err(Chip8Error::StackOverflow)
        } else {
            Ok((CpuState { pc: nnn, stack: c.stack.push(c.pc), ..c }, b))
        },
        Instruction::Drw(x, y, n) => {
            let drawn = blit(b.screen, v[x as int] as int, v[y as int] as int, sprite_rows(b.memory, c.i, n));
            Ok((c.with_v(FLAG_REGISTER as int, flag(drawn.1)), BusState { screen: drawn.0, ..b }))
        },
        Instruction::Skp(x) => Ok((c.skip_if(key_down(b.keys, v[x as int] as int)), b)),
        Instruction::Sknp(x) => Ok((c.skip_if(!key_down(b.keys, v[x as int] as int)), b)),
        Instruction::LdVxK(x) => match b.last_key {
            Some(k) => Ok((c.with_v(x as int, k), b)),
            None => Ok((c.with_pc(wrap16(c.pc - 2)), b)),
        },
        Instruction::LdB(x) => Ok((c, BusState { memory: store_bcd(b.memory, c.i, v[x as int]), ..b })),
        Instruction::LdIVx(x) => Ok((c, BusState { memory: store_regs(b.memory, c.i, v, x + 1), ..b })),
        Instruction::LdVxI(x) => Ok((CpuState { v: load_regs(v, b.memory, c.i, x + 1), ..c }, b)),
        _ => Ok((cpu_step(c, ins, rnd), b)),
    }
}

/// The outcome of executing opcode `op`: new engine state, new surroundings, and
/// whether it succeeded. Failure leaves both as they were.
pub open spec fn step_spec(c: CpuState, b: BusState, op: u16, rnd: u8) -> (CpuState, BusState, Result<(), Chip8Error>) {
    match decode_spec(op) {
        None => (c, b, Err(Chip8Error::UnknownOpcode(op))),
        Some(ins) => match exec_spec(c, b, ins, rnd) {
            Ok(r) => (r.0, r.1, Ok(())),
            Err(e) => (c, b, Err(e)),
        },
    }
}

/// The big-endian opcode at the program counter.
pub open spec fn fetch_spec(c: CpuState, b: BusState) -> u16 {
    (b.memory[wrap_addr(c.pc as int)] * 0x100 + b.memory[wrap_addr(c.pc + 1)]) as u16
}

/// One instruction cycle: fetch, move the program counter past the opcode, execute.
pub open spec fn tick_spec(c: CpuState, b: BusState, rnd: u8) -> (CpuState, BusState, Result<(), Chip8Error>) {
    step_spec(c.with_pc(wrap16(c.pc + 2)), b, fetch_spec(c, b), rnd)
}

/// The timers after one advance.
pub open spec fn timers_spec(c: CpuState) -> CpuState {
    CpuState {
        dt: if c.dt > 0 { (c.dt - 1) as u8 } else { 0 },
        st: if c.st > 0 { (c.st - 1) as u8 } else { 0 },
        ..c
    }
}

proof fn lemma_operand_fields(op: u16)
    ensures
        (((((op >> 8u16) & 0xFu16) as u8) as u16) << 8u16) | (((((op >> 4u16) & 0xFu16) as u8) as u16)
            << 4u16) | (((op & 0xFu16) as u8) as u16) == op & 0xFFFu16,
        ((((op >> 4u16) & 0xFu16) as u8) << 4u8) | ((op & 0xFu16) as u8) == (op & 0xFFu16) as u8,
        ((op >> 12u16) & 0xFu16) < 16,
        ((op >> 8u16) & 0xFu16) < 16,
        ((op >> 4u16) & 0xFu16) < 16,
        (op & 0xFu16) < 16,
{
    assert((((((op >> 8u16) & 0xFu16) as u8) as u16) << 8u16) | (((((op >> 4u16) & 0xFu16) as u8)
        as u16) << 4u16) | (((op & 0xFu16) as u8) as u16) == op & 0xFFFu16) by (bit_vector);
    assert(((((op >> 4u16) & 0xFu16) as u8) << 4u8) | ((op & 0xFu16) as u8) == (op & 0xFFu16) as u8)
        by (bit_vector);
    assert(((op >> 12u16) & 0xFu16) < 16 && ((op >> 8u16) & 0xFu16) < 16 && ((op >> 4u16) & 0xFu16)
        < 16 && (op & 0xFu16) < 16) by (bit_vector);
}

/// The four nibbles of `opcode`, most significant first.
fn nibbles(opcode: u16) -> (r: (u8, u8, u8, u8))
    ensures
        r == (nibble(opcode, 0), nibble(opcode, 1), nibble(opcode, 2), nibble(opcode, 3)),
        r.0 < 16 && r.1 < 16 && r.2 < 16 && r.3 < 16,
{
    proof {
        lemma_operand_fields(opcode);
    }
    let d1 = ((opcode >> 12) & 0xF) as u8;
    let d2 = ((opcode >> 8) & 0xF) as u8;
    let d3 = ((opcode >> 4) & 0xF) as u8;
    let d4 = (opcode & 0xF) as u8;
    (d1, d2, d3, d4)
}

/// The twelve-bit address whose nibbles are `a`, `b`, `c`.
fn compose3(a: u8, b: u8, c: u8) -> (r: u16)
    ensures
        r == ((a as u16) << 8u16) | ((b as u16) << 4u16) | (c as u16),
{
    let part_a = (a as u16) << 8;
    let part_b = (b as u16) << 4;
    let part_c = c as u16;
    part_a | part_b | part_c
}

/// The flag value of `b`: 1 or 0.
fn bool_to_bit(b: bool) -> (r: u8)
    ensures
        r == flag(b),
{
    if b {
        1
    } else {
        0
    }
}

/// Whether every register operand of `ins` names a register.
pub open spec fn operands_valid(ins: Instruction) -> bool {
    match ins {
        Instruction::SeByte(x, _) | Instruction::SneByte(x, _) | Instruction::LdByte(x, _)
        | Instruction::AddByte(x, _) | Instruction::Rnd(x, _) | Instruction::Shr(x) | Instruction::Shl(
            x,
        ) | Instruction::Skp(x) | Instruction::Sknp(x) | Instruction::LdVxDt(x) | Instruction::LdVxK(
            x,
        ) | Instruction::LdDtVx(x) | Instruction::LdStVx(x) | Instruction::AddI(x) | Instruction::LdF(
            x,
        ) | Instruction::LdB(x) | Instruction::LdIVx(x) | Instruction::LdVxI(x) => x < 16,
        Instruction::SeReg(x, y) | Instruction::SneReg(x, y) | Instruction::LdReg(x, y)
        | Instruction::Or(x, y) | Instruction::And(x, y) | Instruction::Xor(x, y)
        | Instruction::AddReg(x, y) | Instruction::Sub(x, y) | Instruction::Subn(x, y)
        | Instruction::Drw(x, y, _) => x < 16 && y < 16,
        _ => true,
    }
}

/// Decodes `op` into its instruction; `None` when it encodes none.
pub fn decode(op: u16) -> (r: Option<Instruction>)
    ensures
        r == decode_spec(op),
        r matches Some(ins) ==> operands_valid(ins),
{
    proof {
        lemma_operand_fields(op);
    }
    match nibbles(op) {
        (0x0, 0x0, 0xE, 0x0) => Some(Instruction::Cls),
        (0x0, 0x0, 0xE, 0xE) => Some(Instruction::Ret),
        (0x1, a, b, c) => Some(Instruction::Jp(compose3(a, b, c))),
        (0x2, a, b, c) => Some(Instruction::Call(compose3(a, b, c))),
        (0x3, x, b, c) => Some(Instruction::SeByte(x, b << 4 | c)),
        (0x4, x, b, c) => Some(Instruction::SneByte(x, b << 4 | c)),
        (0x5, x, y, 0x0) => Some(Instruction::SeReg(x, y)),
        (0x6, x, b, c) => Some(Instruction::LdByte(x, b << 4 | c)),
        (0x7, x, b, c) => Some(Instruction::AddByte(x, b << 4 | c)),
        (0x8, x, y, 0x0) => Some(Instruction::LdReg(x, y)),
        (0x8, x, y, 0x1) => Some(Instruction::Or(x, y)),
        (0x8, x, y, 0x2) => Some(Instruction::And(x, y)),
        (0x8, x, y, 0x3) => Some(Instruction::Xor(x, y)),
        (0x8, x, y, 0x4) => Some(Instruction::AddReg(x, y)),
        (0x8, x, y, 0x5) => Some(Instruction::Sub(x, y)),
        (0x8, x, _, 0x6) => Some(Instruction::Shr(x)),
        (0x8, x, y, 0x7) => Some(Instruction::Subn(x, y)),
        (0x8, x, _, 0xE) => Some(Instruction::Shl(x)),
        (0x9, x, y, 0x0) => Some(Instruction::SneReg(x, y)),
        (0xA, a, b, c) => Some(Instruction::LdI(compose3(a, b, c))),
        (0xB, a, b, c) => Some(Instruction::JpV0(compose3(a, b, c))),
        (0xC, x, b, c) => Some(Instruction::Rnd(x, b << 4 | c)),
        (0xD, x, y, n) => Some(Instruction::Drw(x, y, n)),
        (0xE, x, 0x9, 0xE) => Some(Instruction::Skp(x)),
        (0xE, x, 0xA, 0x1) => Some(Instruction::Sknp(x)),
        (0xF, x, 0x0, 0x7) => Some(Instruction::LdVxDt(x)),
        (0xF, x, 0x0, 0xA) => Some(Instruction::LdVxK(x)),
        (0xF, x, 0x1, 0x5) => Some(Instruction::LdDtVx(x)),
        (0xF, x, 0x1, 0x8) => Some(Instruction::LdStVx(x)),
        (0xF, x, 0x1, 0xE) => Some(Instruction::AddI(x)),
        (0xF, x, 0x2, 0x9) => Some(Instruction::LdF(x)),
        (0xF, x, 0x3, 0x3) => Some(Instruction::LdB(x)),
        (0xF, x, 0x5, 0x5) => Some(Instruction::LdIVx(x)),
        (0xF, x, 0x6, 0x5) => Some(Instruction::LdVxI(x)),
        _ => None,
    }
}

/// Relies on rand::random: a byte drawn from the thread-local generator. Nothing
/// is known of its value.
#[verifier::external_body]
fn random_byte() -> u8 {
    rand::random::<u8>()
}

/// The instruction execution engine.
pub struct Cpu {
    pc: u16,
    v: [u8; 16],
    i: u16,
    stack: Stack,
    dt: u8,
    st: u8,
}

impl View for Cpu {
    type V = CpuState;

    closed spec fn view(&self) -> CpuState {
        CpuState { pc: self.pc, v: self.v@, i: self.i, stack: self.stack@, dt: self.dt, st: self.st }
    }
}

} // verus!

verus! {

/// The address `offset` bytes past `base`, wrapped into the address space.
fn addr_at(base: u16, offset: usize) -> (r: u16)
    requires
        offset < RAM_SIZE,
    ensures
        wrap_addr(r as int) == wrap_addr(base + offset),
{
    ((base as usize + offset) % RAM_SIZE) as u16
}

impl Cpu {
    pub open spec fn wf(&self) -> bool {
        self@.v.len() == REGISTER_COUNT && self@.stack.len() <= STACK_SIZE
    }

    /// An engine at the program start, with registers, timers and stack cleared.
    pub fn new() -> (r: Self)
        ensures
            r.wf(),
            r@ == (CpuState {
                pc: PROGRAM_START,
                v: Seq::new(REGISTER_COUNT as nat, |k: int| 0u8),
                i: 0,
                stack: Seq::empty(),
                dt: 0,
                st: 0,
            }),
    {
        let r = Cpu { pc: PROGRAM_START, v: [0; 16], i: 0, stack: Stack::new(), dt: 0, st: 0 };
        assert(r@.v =~= Seq::new(REGISTER_COUNT as nat, |k: int| 0u8));
        r
    }

    /// The program counter.
    pub fn pc(&self) -> (r: u16)
        ensures
            r == self@.pc,
    {
        self.pc
    }

    /// Register `x`.
    pub fn register(&self, x: u8) -> (r: u8)
        requires
            x < REGISTER_COUNT,
        ensures
            r == self@.v[x as int],
    {
        self.v[x as usize]
    }

    /// The index register.
    pub fn index(&self) -> (r: u16)
        ensures
            r == self@.i,
    {
        self.i
    }

    /// The delay timer.
    pub fn delay_timer(&self) -> (r: u8)
        ensures
            r == self@.dt,
    {
        self.dt
    }

    /// The sound timer.
    pub fn sound_timer(&self) -> (r: u8)
        ensures
            r == self@.st,
    {
        self.st
    }

    /// How many calls are open.
    pub fn stack_depth(&self) -> (r: usize)
        requires
            self.wf(),
        ensures
            r == self@.stack.len(),
    {
        self.stack.len()
    }

    /// Runs one instruction cycle. The random byte an `RND` needs is drawn
    /// here; the outcome is that of `tick_spec` for some byte.
    pub fn tick(&mut self, bus: &mut Bus) -> (r: Result<(), Chip8Error>)
        requires
            old(self).wf(),
            old(bus).wf(),
        ensures
            final(self).wf(),
            final(bus).wf(),
            exists|rnd: u8| (final(self)@, final(bus)@, r) == tick_spec(old(self)@, old(bus)@, rnd),
    {
        let ghost c0 = self@;
        let ghost b0 = bus@;
        let opcode = self.fetch_op(bus);
        let rnd = if opcode >> 12 == 0xC {
            random_byte()
        } else {
            0
        };
        let r = self.execute_instruction(opcode, bus, rnd);
        assert((self@, bus@, r) == tick_spec(c0, b0, rnd));
        r
    }

    /// Reads the opcode at the program counter and moves the counter past it.
    fn fetch_op(&mut self, bus: &Bus) -> (r: u16)
        requires
            old(self).wf(),
            bus.wf(),
        ensures
            final(self).wf(),
            r == fetch_spec(old(self)@, bus@),
            final(self)@ == old(self)@.with_pc(wrap16(old(self)@.pc + 2)),
    {
        let hb = bus.read_byte(self.pc) as u16;
        let lb = bus.read_byte(addr_at(self.pc, 1)) as u16;
        self.pc = self.pc.wrapping_add(2);
        hb * 0x100 + lb
    }

    /// Decodes and executes `op`, with `rnd` as the byte an `RND` draws.
    pub fn execute_instruction(&mut self, op: u16, bus: &mut Bus, rnd: u8) -> (r: Result<(), Chip8Error>)
        requires
            old(self).wf(),
            old(bus).wf(),
        ensures
            final(self).wf(),
            final(bus).wf(),
            (final(self)@, final(bus)@, r) == step_spec(old(self)@, old(bus)@, op, rnd),
    {
        match decode(op) {
            None => Err(Chip8Error::UnknownOpcode(op)),
            Some(ins) => match self.execute(ins, bus, rnd) {
                Ok(()) => Ok(()),
                Err(e) => Err(e),
            },
        }
    }

    /// Executes a decoded instruction.
    fn execute(&mut self, ins: Instruction, bus: &mut Bus, rnd: u8) -> (r: Result<(), Chip8Error>)
        requires
            old(self).wf(),
            old(bus).wf(),
            operands_valid(ins),
        ensures
            final(self).wf(),
            final(bus).wf(),
            match exec_spec(old(self)@, old(bus)@, ins, rnd) {
                Ok(p) => r is Ok && final(self)@ == p.0 && final(bus)@ == p.1,
                Err(e) => r == Err::<(), Chip8Error>(e) && final(self)@ == old(self)@ && final(bus)@
                    == old(bus)@,
            },
    {
        match ins {
            Instruction::Cls => {
                bus.clear_display();
                Ok(())
            },
            Instruction::Ret => self.ret(),
            Instruction::Call(nnn) => self.call(nnn),
            Instruction::Drw(x, y, n) => {
                self.drw(x, y, n, bus);
                Ok(())
            },
            Instruction::Skp(x) => {
                let cond = bus.get_key(self.v[x as usize]);
                self.skip_if(cond);
                Ok(())
            },
            Instruction::Sknp(x) => {
                let cond = !bus.get_key(self.v[x as usize]);
                self.skip_if(cond);
                Ok(())
            },
            Instruction::LdVxK(x) => {
                self.ld_vx_k(x, bus);
                Ok(())
            },
            Instruction::LdB(x) => {
                self.ld_b_vx(x, bus);
                Ok(())
            },
            Instruction::LdIVx(x) => {
                self.ld_i_vx(x, bus);
                Ok(())
            },
            Instruction::LdVxI(x) => {
                self.ld_vx_i(x, bus);
                Ok(())
            },
            _ => {
                self.execute_register_op(ins, rnd);
                Ok(())
            },
        }
    }

    /// Executes an instruction that reads and writes registers only.
    fn execute_register_op(&mut self, ins: Instruction, rnd: u8)
        requires
            old(self).wf(),
            operands_valid(ins),
        ensures
            final(self).wf(),
            final(self)@ == cpu_step(old(self)@, ins, rnd),
    {
        match ins {
            Instruction::Jp(nnn) => {
                self.pc = nnn;
            },
            Instruction::LdByte(x, kk) => {
                self.v[x as usize] = kk;
            },
            Instruction::SeByte(x, kk) => {
                let cond = self.v[x as usize] == kk;
                self.skip_if(cond);
            },
            Instruction::SneByte(x, kk) => {
                let cond = self.v[x as usize] != kk;
                self.skip_if(cond);
            },
            Instruction::SeReg(x, y) => {
                let cond = self.v[x as usize] == self.v[y as usize];
                self.skip_if(cond);
            },
            Instruction::SneReg(x, y) => {
                let cond = self.v[x as usize] != self.v[y as usize];
                self.skip_if(cond);
            },
            Instruction::AddByte(x, kk) => {
                let res = self.v[x as usize].wrapping_add(kk);
                self.v[x as usize] = res;
            },
            Instruction::LdReg(x, y) => {
                let res = self.v[y as usize];
                self.v[x as usize] = res;
            },
            Instruction::Or(x, y) => {
                let res = self.v[x as usize] | self.v[y as usize];
                self.v[x as usize] = res;
            },
            Instruction::And(x, y) => {
                let res = self.v[x as usize] & self.v[y as usize];
                self.v[x as usize] = res;
            },
            Instruction::Xor(x, y) => {
                let res = self.v[x as usize] ^ self.v[y as usize];
                self.v[x as usize] = res;
            },
            Instruction::AddReg(x, y) => {
                self.add_vx_vy(x, y);
            },
            Instruction::Sub(x, y) => {
                self.sub_vx_vy(x, y);
            },
            Instruction::Shr(x) => {
                self.shr_vx(x);
            },
            Instruction::Subn(x, y) => {
                self.sub_vy_vx(x, y);
            },
            Instruction::Shl(x) => {
                self.shl_vx(x);
            },
            Instruction::LdI(nnn) => {
                self.i = nnn;
            },
            Instruction::JpV0(nnn) => {
                self.jp_v0(nnn);
            },
            Instruction::Rnd(x, kk) => {
                self.v[x as usize] = rnd & kk;
            },
            Instruction::LdVxDt(x) => {
                let dt = self.dt;
                self.v[x as usize] = dt;
            },
            Instruction::LdDtVx(x) => {
                self.dt = self.v[x as usize];
            },
            Instruction::LdStVx(x) => {
                self.st = self.v[x as usize];
            },
            Instruction::AddI(x) => {
                self.i = self.i.wrapping_add(self.v[x as usize] as u16);
            },
            Instruction::LdF(x) => {
                self.i = self.v[x as usize] as u16 * 5;
            },
            _ => {},
        }
    }

    /// Moves past the next instruction when `cond` holds.
    fn skip_if(&mut self, cond: bool)
        ensures
            final(self)@ == old(self)@.skip_if(cond),
    {
        if cond {
            self.pc = self.pc.wrapping_add(2);
        }
    }

    /// `RET`: returns to the address on top of the call stack.
    fn ret(&mut self) -> (r: Result<(), Chip8Error>)
        requires
            old(self).wf(),
        ensures
            final(self).wf(),
            old(self)@.stack.len() == 0 ==> r == Err::<(), Chip8Error>(Chip8Error::StackUnderflow)
                && final(self)@ == old(self)@,
            old(self)@.stack.len() > 0 ==> r is Ok && final(self)@ == (CpuState {
                pc: old(self)@.stack.last(),
                stack: old(self)@.stack.drop_last(),
                ..old(self)@
            }),
    {
        let addr = self.stack.pop()?;
        self.pc = addr;
        Ok(())
    }

    /// `CALL addr`: pushes the program counter and jumps to `addr`.
    fn call(&mut self, addr: u16) -> (r: Result<(), Chip8Error>)
        requires
            old(self).wf(),
        ensures
            final(self).wf(),
            old(self)@.stack.len() >= STACK_SIZE ==> r == Err::<(), Chip8Error>(
                Chip8Error::StackOverflow,
            ) && final(self)@ == old(self)@,
            old(self)@.stack.len() < STACK_SIZE ==> r is Ok && final(self)@ == (CpuState {
                pc: addr,
                stack: old(self)@.stack.push(old(self)@.pc),
                ..old(self)@
            }),
    {
        self.stack.push(self.pc)?;
        self.pc = addr;
        Ok(())
    }

    /// `ADD Vx, Vy`: wrapping sum, carry into the flag register.
    fn add_vx_vy(&mut self, x: u8, y: u8)
        requires
            old(self).wf(),
            x < 16,
            y < 16,
        ensures
            final(self).wf(),
            final(self)@ == cpu_step(old(self)@, Instruction::AddReg(x, y), 0),
    {
        let sum = self.v[x as usize] as u16 + self.v[y as usize] as u16;
        self.v[x as usize] = (sum % 0x100) as u8;
        self.v[FLAG_REGISTER] = bool_to_bit(sum > 0xFF);
    }

    /// `SUB Vx, Vy`: wrapping difference, flag set when nothing was borrowed.
    fn sub_vx_vy(&mut self, x: u8, y: u8)
        requires
            old(self).wf(),
            x < 16,
            y < 16,
        ensures
            final(self).wf(),
            final(self)@ == cpu_step(old(self)@, Instruction::Sub(x, y), 0),
    {
        let vx = self.v[x as usize];
        let vy = self.v[y as usize];
        self.v[x as usize] = vx.wrapping_sub(vy);
        self.v[FLAG_REGISTER] = bool_to_bit(vx >= vy);
    }

    /// `SHR Vx`: halves `Vx`, the bit shifted out into the flag register.
    fn shr_vx(&mut self, x: u8)
        requires
            old(self).wf(),
            x < 16,
        ensures
            final(self).wf(),
            final(self)@ == cpu_step(old(self)@, Instruction::Shr(x), 0),
    {
        let vx = self.v[x as usize];
        self.v[x as usize] = vx / 2;
        self.v[FLAG_REGISTER] = vx % 2;
    }

    /// `SUBN Vx, Vy`: `Vy - Vx` into `Vy`, flag set when nothing was borrowed.
    fn sub_vy_vx(&mut self, x: u8, y: u8)
        requires
            old(self).wf(),
            x < 16,
            y < 16,
        ensures
            final(self).wf(),
            final(self)@ == cpu_step(old(self)@, Instruction::Subn(x, y), 0),
    {
        let vx = self.v[x as usize];
        let vy = self.v[y as usize];
        self.v[y as usize] = vy.wrapping_sub(vx);
        self.v[FLAG_REGISTER] = bool_to_bit(vy >= vx);
    }

    /// `SHL Vx`: doubles `Vx`; the flag register takes the old high bit as `0x80` or `0`.
    fn shl_vx(&mut self, x: u8)
        requires
            old(self).wf(),
            x < 16,
        ensures
            final(self).wf(),
            final(self)@ == cpu_step(old(self)@, Instruction::Shl(x), 0),
    {
        let vx = self.v[x as usize];
        self.v[x as usize] = vx.wrapping_add(vx);
        self.v[FLAG_REGISTER] = vx & 0x80;
    }

    /// `JP V0, addr`: jumps to `V0` plus the low byte of `addr`, summed in eight bits.
    fn jp_v0(&mut self, val: u16)
        requires
            old(self).wf(),
        ensures
            final(self).wf(),
            final(self)@ == cpu_step(old(self)@, Instruction::JpV0(val), 0),
    {
        self.pc = self.v[0].wrapping_add((val % 0x100) as u8) as u16;
    }

    /// `DRW Vx, Vy, n`: draws the `n` rows at `I` at `(Vx, Vy)`; the flag register tells of a collision.
    fn drw(&mut self, x: u8, y: u8, n: u8, bus: &mut Bus)
        requires
            old(self).wf(),
            old(bus).wf(),
            x < 16,
            y < 16,
        ensures
            final(self).wf(),
            final(bus).wf(),
            exec_spec(old(self)@, old(bus)@, Instruction::Drw(x, y, n), 0) == Ok::<
                (CpuState, BusState),
                Chip8Error,
            >((final(self)@, final(bus)@)),
    {
        let vx = self.v[x as usize] as u16;
        let vy = self.v[y as usize] as u16;
        let mut sprite: Vec<u8> = Vec::new();
        let mut row: u8 = 0;
        while row < n
            invariant
                row <= n,
                bus.wf(),
                bus@ == old(bus)@,
                sprite@ == sprite_rows(bus@.memory, self.i, n).subrange(0, row as int),
            decreases n - row,
        {
            let pixels = bus.read_byte(addr_at(self.i, row as usize));
            sprite.push(pixels);
            row = row + 1;
            assert(sprite@ =~= sprite_rows(bus@.memory, self.i, n).subrange(0, row as int));
        }
        assert(sprite@ =~= sprite_rows(bus@.memory, self.i, n));
        let flipped = bus.draw(vx, vy, sprite);
        self.v[FLAG_REGISTER] = bool_to_bit(flipped);
    }

    /// `LD Vx, K`: takes the pressed key, or steps back to wait on the same opcode.
    fn ld_vx_k(&mut self, x: u8, bus: &Bus)
        requires
            old(self).wf(),
            x < 16,
        ensures
            final(self).wf(),
            exec_spec(old(self)@, bus@, Instruction::LdVxK(x), 0) == Ok::<
                (CpuState, BusState),
                Chip8Error,
            >((final(self)@, bus@)),
    {
        match bus.get_key_pressed() {
            Some(key) => self.v[x as usize] = key,
            None => self.pc = self.pc.wrapping_sub(2),
        }
    }

    /// `LD B, Vx`: writes the decimal digits of `Vx` at `I`, `I + 1`, `I + 2`.
    fn ld_b_vx(&self, x: u8, bus: &mut Bus)
        requires
            self.wf(),
            old(bus).wf(),
            x < 16,
        ensures
            final(bus).wf(),
            exec_spec(self@, old(bus)@, Instruction::LdB(x), 0) == Ok::<
                (CpuState, BusState),
                Chip8Error,
            >((self@, final(bus)@)),
    {
        let vx = self.v[x as usize];
        let hundreds = vx / 100;
        let tens = (vx % 100) / 10;
        let ones = vx % 10;
        bus.write_byte(addr_at(self.i, 0), hundreds);
        bus.write_byte(addr_at(self.i, 1), tens);
        bus.write_byte(addr_at(self.i, 2), ones);
    }

    /// `LD [I], Vx`: writes registers `0..=x` to memory from `I` on.
    fn ld_i_vx(&self, x: u8, bus: &mut Bus)
        requires
            self.wf(),
            old(bus).wf(),
            x < 16,
        ensures
            final(bus).wf(),
            exec_spec(self@, old(bus)@, Instruction::LdIVx(x), 0) == Ok::<
                (CpuState, BusState),
                Chip8Error,
            >((self@, final(bus)@)),
    {
        let mut k: u8 = 0;
        while k <= x
            invariant
                k <= x + 1,
                x < 16,
                self.wf(),
                bus.wf(),
                bus@ == (BusState {
                    memory: store_regs(old(bus)@.memory, self@.i, self@.v, k as int),
                    ..old(bus)@
                }),
            decreases x + 1 - k,
        {
            bus.write_byte(addr_at(self.i, k as usize), self.v[k as usize]);
            k = k + 1;
        }
    }

    /// `LD Vx, [I]`: reads registers `0..=x` from memory from `I` on.
    fn ld_vx_i(&mut self, x: u8, bus: &Bus)
        requires
            old(self).wf(),
            bus.wf(),
            x < 16,
        ensures
            final(self).wf(),
            exec_spec(old(self)@, bus@, Instruction::LdVxI(x), 0) == Ok::<
                (CpuState, BusState),
                Chip8Error,
            >((final(self)@, bus@)),
    {
        let mut k: u8 = 0;
        assert(self@.v =~= load_regs(old(self)@.v, bus@.memory, old(self)@.i, 0));
        while k <= x
            invariant
                k <= x + 1,
                x < 16,
                self.wf(),
                bus.wf(),
                self@ == (CpuState {
                    v: load_regs(old(self)@.v, bus@.memory, old(self)@.i, k as int),
                    ..old(self)@
                }),
            decreases x + 1 - k,
        {
            let b = bus.read_byte(addr_at(self.i, k as usize));
            self.v[k as usize] = b;
            k = k + 1;
            assert(self@.v =~= load_regs(old(self)@.v, bus@.memory, old(self)@.i, k as int));
        }
    }

    /// Advances both timers by one step; returns whether the sound timer ran
    /// out on this step, which is when the beep sounds.
    pub fn tick_timers(&mut self) -> (beep: bool)
        ensures
            final(self)@ == timers_spec(old(self)@),
            beep == (old(self)@.st == 1),
    {
        if self.dt > 0 {
            self.dt = self.dt - 1;
        }
        let mut beep = false;
        if self.st > 0 {
            if self.st == 1 {
                beep = true;
            }
            self.st = self.st - 1;
        }
        beep
    }
}

} // verus!
