//! Laws of the execution engine, stated over the model's transition
//! function and proved once for all machine states.

use vstd::prelude::*;

use crate::flags::popcount8;
use crate::interrupt::spec_fires;
use crate::model::VmState;
use crate::model::spec_interrupt;
use crate::model::spec_step;
use crate::model::wf;
use crate::model::word;
use crate::model::wrap_sub8;

verus! {

/// DCR on any eight-bit value: the register takes the wrapped decrement,
/// Zero is set exactly when the result is zero, Sign exactly when bit 7
/// of the result is set, Parity exactly when the number of set bits in
/// the result is even; Carry persists.
pub proof fn lemma_dcr_flags(s: VmState)
    requires
        wf(s),
        s.pc < s.mem.len(),
        s.mem[s.pc as int] == 0x05,
    ensures
        spec_step(s) is Ok,
        spec_step(s) matches Ok(s2) ==> {
            &&& s2.b == wrap_sub8(s.b, 1)
            &&& (s2.flags.z == 1 <==> s2.b == 0)
            &&& (s2.flags.s == 1 <==> (s2.b & 0x80) == 0x80)
            &&& (s2.flags.p == 1 <==> popcount8(s2.b) % 2 == 0)
            &&& s2.flags.cy == s.flags.cy
        },
{
}

/// A three-byte CALL at address A pushes the return address A+3 (modulo
/// sixteen bits): its low byte at SP-2, its high byte at SP-1, with SP
/// decremented by two, and jumps to its operand. A RET at the jump
/// target, as long as the pushed bytes did not overwrite it, restores the
/// program counter to A+3 and SP to its original value: a call followed
/// by its return lands on the instruction after the call.
pub proof fn lemma_call_then_ret(s: VmState)
    requires
        wf(s),
        s.pc + 2 < s.mem.len(),
        s.mem[s.pc as int] == 0xcd,
        2 <= s.sp,
        s.sp <= s.mem.len(),
        s.mem[word(s.mem[s.pc + 1], s.mem[s.pc + 2])] == 0xc9,
        word(s.mem[s.pc + 1], s.mem[s.pc + 2]) != s.sp - 1,
        word(s.mem[s.pc + 1], s.mem[s.pc + 2]) != s.sp - 2,
    ensures
        spec_step(s) is Ok,
        spec_step(s) matches Ok(s2) ==> {
            &&& s2.sp == s.sp - 2
            &&& s2.mem[s.sp - 2] == ((s.pc + 3) % 0x10000) % 256
            &&& s2.mem[s.sp - 1] == ((s.pc + 3) % 0x10000) / 256
            &&& s2.pc == word(s.mem[s.pc + 1], s.mem[s.pc + 2])
            &&& spec_step(s2) is Ok
            &&& (spec_step(s2) matches Ok(s3) ==> s3.pc == (s.pc + 3) % 0x10000 && s3.sp == s.sp)
        },
{
}

/// PUSH of the register pair (B,C) followed by POP of the same pair, as
/// long as the push did not overwrite the POP opcode itself, restores B,
/// C and the stack pointer exactly.
pub proof fn lemma_push_pop_round_trip(s: VmState)
    requires
        wf(s),
        s.pc + 1 < s.mem.len(),
        s.mem[s.pc as int] == 0xc5,
        s.mem[s.pc + 1] == 0xc1,
        2 <= s.sp,
        s.sp <= s.mem.len(),
        s.pc + 1 != s.sp - 1,
        s.pc + 1 != s.sp - 2,
    ensures
        spec_step(s) is Ok,
        spec_step(s) matches Ok(s2) ==> {
            &&& spec_step(s2) is Ok
            &&& (spec_step(s2) matches Ok(s3) ==> s3.b == s.b && s3.c == s.c && s3.sp == s.sp)
        },
{
}

/// XRA of the accumulator with itself, from any initial accumulator
/// value, zeroes the accumulator, sets Zero, and clears Carry and
/// Auxiliary-carry.
pub proof fn lemma_xra_a(s: VmState)
    requires
        wf(s),
        s.pc < s.mem.len(),
        s.mem[s.pc as int] == 0xaf,
    ensures
        spec_step(s) is Ok,
        spec_step(s) matches Ok(s2) ==> s2.a == 0 && s2.flags.z == 1 && s2.flags.cy == 0
            && s2.flags.ac == 0,
{
}

/// A delivered interrupt clears the interrupt-enable flag, so the
/// interrupt condition cannot hold again — whatever the clock then says —
/// until the running program re-enables interrupts.
pub proof fn lemma_interrupt_fires_once(s: VmState, num: i32, last2: u64, now2: u64)
    requires
        spec_interrupt(s, num) is Ok,
    ensures
        spec_interrupt(s, num) matches Ok(s2) ==> !spec_fires(s2.int_enable, last2, now2),
{
}

} // verus!
