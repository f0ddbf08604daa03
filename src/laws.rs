//! Properties that relate several operations of the machine, proved over the
//! specifications that the operations' contracts use.
use vstd::prelude::*;

use crate::bus::BusState;
use crate::cpu::{
    CpuState, Instruction, decode_spec, exec_spec, fetch_spec, tick_spec, timers_spec, wrap16,
};
use crate::display::{SCREEN_HEIGHT, SCREEN_WIDTH, blank};
use crate::stack::STACK_SIZE;

verus! {

/// Clearing the screen leaves a 64 by 32 grid of zeros, whatever it held, and
/// touches nothing else.
pub proof fn law_clear_blanks_screen(c: CpuState, b: BusState, rnd: u8)
    ensures
        exec_spec(c, b, Instruction::Cls, rnd) == Ok::<(CpuState, BusState), crate::error::Chip8Error>(
            (c, BusState { screen: blank(), ..b }),
        ),
        blank().len() == SCREEN_WIDTH,
        forall|i: int| 0 <= i < SCREEN_WIDTH ==> #[trigger] blank()[i].len() == SCREEN_HEIGHT,
        forall|i: int, j: int|
            0 <= i < SCREEN_WIDTH && 0 <= j < SCREEN_HEIGHT ==> #[trigger] blank()[i][j] == 0u8,
{
}

/// A push followed by a pop hands back the pushed address and leaves the
/// stack as it was.
pub proof fn law_push_then_pop(s: Seq<u16>, a: u16)
    requires
        s.len() < STACK_SIZE,
    ensures
        s.push(a).len() <= STACK_SIZE,
        s.push(a).len() > 0,
        s.push(a).last() == a,
        s.push(a).drop_last() == s,
{
    assert(s.push(a).drop_last() =~= s);
}

/// The stack after pushing each of `addrs` in order.
pub open spec fn push_all(s: Seq<u16>, addrs: Seq<u16>) -> Seq<u16>
    decreases addrs.len(),
{
    if addrs.len() == 0 {
        s
    } else {
        push_all(s, addrs.drop_last()).push(addrs.last())
    }
}

/// The stack after `j` pops.
pub open spec fn pop_n(s: Seq<u16>, j: nat) -> Seq<u16>
    decreases j,
{
    if j == 0 {
        s
    } else {
        pop_n(s, (j - 1) as nat).drop_last()
    }
}

/// Pushing addresses onto an empty stack holds them in push order, and the
/// pops that follow hand them back newest first: pop number `j + 1` returns
/// the address pushed `j` places before the last one.
pub proof fn law_pops_reverse_pushes(addrs: Seq<u16>, j: nat)
    requires
        addrs.len() <= STACK_SIZE,
        j < addrs.len(),
    ensures
        push_all(Seq::empty(), addrs) == addrs,
        pop_n(addrs, j).len() > 0,
        pop_n(addrs, j).last() == addrs[addrs.len() - 1 - j],
{
    lemma_push_all_empty(addrs);
    lemma_pop_n(addrs, j);
}

proof fn lemma_push_all_empty(addrs: Seq<u16>)
    ensures
        push_all(Seq::empty(), addrs) == addrs,
    decreases addrs.len(),
{
    if addrs.len() > 0 {
        lemma_push_all_empty(addrs.drop_last());
        assert(addrs.drop_last().push(addrs.last()) =~= addrs);
    }
}

proof fn lemma_pop_n(s: Seq<u16>, j: nat)
    requires
        j <= s.len(),
    ensures
        pop_n(s, j) == s.subrange(0, s.len() - j),
    decreases j,
{
    if j > 0 {
        lemma_pop_n(s, (j - 1) as nat);
        assert(s.subrange(0, s.len() - (j - 1)).drop_last() =~= s.subrange(0, s.len() - j));
    } else {
        assert(s.subrange(0, s.len() as int) =~= s);
    }
}

/// Waiting for a key: with no key pressed, a cycle on `LD Vx, K` leaves the
/// whole machine as it was, so the same opcode comes again; once a key is
/// pressed, the program counter moves on and `Vx` holds the key.
pub proof fn law_key_wait(c: CpuState, b: BusState, rnd: u8, x: u8)
    requires
        decode_spec(fetch_spec(c, b)) == Some(Instruction::LdVxK(x)),
    ensures
        b.last_key is None ==> tick_spec(c, b, rnd) == (c, b, Ok::<(), crate::error::Chip8Error>(())),
        b.last_key matches Some(k) ==> tick_spec(c, b, rnd) == (
            c.with_pc(wrap16(c.pc + 2)).with_v(x as int, k),
            b,
            Ok::<(), crate::error::Chip8Error>(()),
        ),
{
    assert(wrap16(wrap16(c.pc + 2) - 2) == c.pc);
}

/// The timers after `k` advances.
pub open spec fn advance_timers(c: CpuState, k: nat) -> CpuState
    decreases k,
{
    if k == 0 {
        c
    } else {
        timers_spec(advance_timers(c, (k - 1) as nat))
    }
}

/// A sound timer set to `n` counts down one per advance, and the beep (due on
/// the advance that finds the timer at 1) comes on advance `n` and on no other.
pub proof fn law_single_beep(c: CpuState, k: nat)
    requires
        1 <= k,
    ensures
        k <= c.st ==> advance_timers(c, k).st == c.st - k,
        advance_timers(c, (k - 1) as nat).st == 1 <==> k == c.st,
    decreases k,
{
    lemma_sound_countdown(c, k);
    lemma_sound_countdown(c, (k - 1) as nat);
}

proof fn lemma_sound_countdown(c: CpuState, k: nat)
    ensures
        advance_timers(c, k).st == if k <= c.st { c.st - k } else { 0 },
    decreases k,
{
    if k > 0 {
        lemma_sound_countdown(c, (k - 1) as nat);
    }
}

} // verus!
