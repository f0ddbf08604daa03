use vstd::prelude::*;

verus! {

/// The conditions that stop the interpreter, reported to the host.
#[derive(Debug, Clone, Copy, PartialEq, Eq, Structural)]
pub enum Chip8Error {
    /// The opcode matches no instruction of the set.
    UnknownOpcode(u16),
    /// A call would nest deeper than the stack holds.
    StackOverflow,
    /// A return with no call to return to.
    StackUnderflow,
    /// The program does not fit between its load address and the end of memory.
    RomTooLarge,
}

} // verus!
