//! The control-transfer unit: unconditional and conditional jump, call with
//! a stack push of the return address, and return with the matching pop.
//!
//! Jump targets are encoded low byte first in the instruction stream.  A
//! call pushes the return address high byte first (high byte at the higher
//! stack address); a return reads the low byte at the stack pointer and the
//! high byte above it, the inverse order.

use vstd::prelude::*;

use crate::emulator::Model8080;
use crate::emulator::State8080;
use crate::emulator::utils;
use crate::emulator::utils::wrap16;
use crate::emulator::word_at;

verus! {

/// The state after an unconditional jump: the program counter takes the
/// 16-bit word encoded low byte first at the program counter.
pub open spec fn spec_jmp(s: Model8080) -> Model8080 {
    Model8080 { pc: wrap16(word_at(s.mem, s.pc)), ..s }
}

/// The state after a conditional jump: as `spec_jmp` when the predicate
/// holds, otherwise the two address bytes are skipped unread.
pub open spec fn spec_conditional_jmp(condition: bool, s: Model8080) -> Model8080 {
    if condition {
        spec_jmp(s)
    } else {
        Model8080 { pc: wrap16(s.pc + 2), ..s }
    }
}

/// The state after a call: the address of the instruction after the two
/// operand bytes is pushed high byte first at stack pointer minus one and
/// minus two, the stack pointer drops by two, and the jump is taken.  The
/// jump target is read from the memory left by the push.
pub open spec fn spec_call(s: Model8080) -> Model8080 {
    let ret = wrap16(s.pc + 2);
    let pushed = s.mem.update(wrap16(s.sp - 1) as int, (ret / 256) as u8).update(
        wrap16(s.sp - 2) as int,
        (ret % 256) as u8,
    );
    spec_jmp(Model8080 { sp: wrap16(s.sp - 2), mem: pushed, ..s })
}

/// The state after a return: the program counter is rebuilt from the low
/// byte at the stack pointer and the high byte above it, and the stack
/// pointer rises by two.
pub open spec fn spec_ret(s: Model8080) -> Model8080 {
    Model8080 { pc: wrap16(word_at(s.mem, s.sp)), sp: wrap16(s.sp + 2), ..s }
}

/// Jumps to the address encoded low byte first at the program counter.
pub fn jmp(state: &mut State8080)
    requires
        old(state).wf(),
    ensures
        final(state).wf(),
        final(state)@ == spec_jmp(old(state)@),
{
    let target = state.get_double_at_pc();
    state.pc = target;
    proof {
        assert(final(state)@ =~= spec_jmp(old(state)@));
    }
}

/// Jumps when the predicate holds; otherwise skips the two address bytes.
pub fn conditional_jmp(condition: bool, state: &mut State8080)
    requires
        old(state).wf(),
    ensures
        final(state).wf(),
        final(state)@ == spec_conditional_jmp(condition, old(state)@),
{
    if condition {
        jmp(state);
    } else {
        state.pc = utils::wrapping_add16(state.pc, 2);
    }
    proof {
        assert(final(state)@ =~= spec_conditional_jmp(condition, old(state)@));
    }
}

/// Pushes the return address and jumps to the call target.
pub fn call(state: &mut State8080)
    requires
        old(state).wf(),
    ensures
        final(state).wf(),
        final(state)@ == spec_call(old(state)@),
{
    let return_address = utils::wrapping_add16(state.pc, 2);
    let high_slot = utils::wrapping_sub16(state.sp, 1);
    let low_slot = utils::wrapping_sub16(state.sp, 2);
    state.memory.set(high_slot as usize, (return_address / 256) as u8);
    state.memory.set(low_slot as usize, (return_address % 256) as u8);
    state.sp = low_slot;
    jmp(state);
    proof {
        assert(final(state)@ =~= spec_call(old(state)@));
    }
}

/// Pops the return address pushed by `call` and resumes there.
pub fn ret(state: &mut State8080)
    requires
        old(state).wf(),
    ensures
        final(state).wf(),
        final(state)@ == spec_ret(old(state)@),
{
    let lower = state.memory[state.sp as usize];
    let upper_slot = utils::wrapping_add16(state.sp, 1);
    let upper = state.memory[upper_slot as usize];
    state.pc = utils::combine(upper, lower);
    state.sp = utils::wrapping_add16(state.sp, 2);
    proof {
        assert(final(state)@ =~= spec_ret(old(state)@));
    }
}

} // verus!
