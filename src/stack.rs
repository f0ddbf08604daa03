use vstd::prelude::*;

use crate::error::Chip8Error;

verus! {

/// Number of return addresses the call stack holds.
pub const STACK_SIZE: usize = 12;

/// A bounded LIFO of return addresses.
pub struct Stack {
    values: Vec<u16>,
}

impl View for Stack {
    type V = Seq<u16>;

    /// The addresses on the stack, bottom first.
    closed spec fn view(&self) -> Seq<u16> {
        self.values@
    }
}

impl Stack {
    pub open spec fn wf(&self) -> bool {
        self@.len() <= STACK_SIZE
    }

    pub fn new() -> (r: Self)
        ensures
            r.wf(),
            r@ == Seq::<u16>::empty(),
    {
        Stack { values: Vec::new() }
    }

    /// Pushes `val`; fails, leaving the stack as it was, when it is full.
    pub fn push(&mut self, val: u16) -> (r: Result<(), Chip8Error>)
        requires
            old(self).wf(),
        ensures
            final(self).wf(),
            old(self)@.len() < STACK_SIZE ==> r == Ok::<(), Chip8Error>(()) && final(self)@ == old(
                self,
            )@.push(val),
            old(self)@.len() >= STACK_SIZE ==> r == Err::<(), Chip8Error>(Chip8Error::StackOverflow)
                && final(self)@ == old(self)@,
    {
        if self.values.len() >= STACK_SIZE {
            return Err(Chip8Error::StackOverflow);
        }
        self.values.push(val);
        Ok(())
    }

    /// Removes and returns the top address; fails, leaving the stack as it was, when empty.
    pub fn pop(&mut self) -> (r: Result<u16, Chip8Error>)
        requires
            old(self).wf(),
        ensures
            final(self).wf(),
            old(self)@.len() > 0 ==> r == Ok::<u16, Chip8Error>(old(self)@.last()) && final(self)@
                == old(self)@.drop_last(),
            old(self)@.len() == 0 ==> r == Err::<u16, Chip8Error>(Chip8Error::StackUnderflow)
                && final(self)@ == old(self)@,
    {
        match self.values.pop() {
            Some(v) => Ok(v),
            None => Err(Chip8Error::StackUnderflow),
        }
    }

    pub fn len(&self) -> (r: usize)
        requires
            self.wf(),
        ensures
            r == self@.len(),
    {
        self.values.len()
    }
}

} // verus!
