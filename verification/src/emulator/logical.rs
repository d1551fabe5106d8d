//! The rotate unit: four single-bit rotations of the accumulator with
//! distinct carry-threading rules.
//!
//! The circular rotates (`rlc`, `rrc`) reinsert the bit that fell off;
//! the through-carry rotates (`ral`, `rar`) make the shifted-out bit the new
//! Carry but fill the vacated position from the *previous* Carry value.
//! This one-step decoupling is the defining difference between the two
//! families.

use vstd::prelude::*;

use crate::emulator::ConditionCodes;
use crate::emulator::Model8080;
use crate::emulator::State8080;

verus! {

/// Circular left rotate: Carry and the low bit both take the bit that fell
/// off the top.
pub open spec fn spec_rlc(s: Model8080) -> Model8080 {
    Model8080 {
        a: ((s.a % 128) * 2 + if s.a >= 128 {
            1int
        } else {
            0int
        }) as u8,
        cc: ConditionCodes { cy: s.a >= 128, ..s.cc },
        ..s
    }
}

/// Circular right rotate: Carry and the top bit both take the bit that fell
/// off the bottom.
pub open spec fn spec_rrc(s: Model8080) -> Model8080 {
    Model8080 {
        a: (s.a / 2 + if s.a % 2 == 1 {
            128int
        } else {
            0int
        }) as u8,
        cc: ConditionCodes { cy: s.a % 2 == 1, ..s.cc },
        ..s
    }
}

/// Left rotate through carry: the top bit becomes the new Carry, while the
/// vacated low bit is filled from the previous Carry.
pub open spec fn spec_ral(s: Model8080) -> Model8080 {
    Model8080 {
        a: ((s.a % 128) * 2 + if s.cc.cy {
            1int
        } else {
            0int
        }) as u8,
        cc: ConditionCodes { cy: s.a >= 128, ..s.cc },
        ..s
    }
}

/// Right rotate through carry: the bottom bit becomes the new Carry, while
/// the vacated top bit is filled from the previous Carry.
pub open spec fn spec_rar(s: Model8080) -> Model8080 {
    Model8080 {
        a: (s.a / 2 + if s.cc.cy {
            128int
        } else {
            0int
        }) as u8,
        cc: ConditionCodes { cy: s.a % 2 == 1, ..s.cc },
        ..s
    }
}

/// Rotates the accumulator left one position, wrapping the top bit into
/// both Carry and the low bit.
pub fn rlc(state: &mut State8080)
    ensures
        final(state)@ == spec_rlc(old(state)@),
{
    state.cc.cy = state.a >= 128;
    state.a = (state.a % 128) * 2;
    if state.cc.cy {
        state.a += 1;
    }
    proof {
        assert(final(state)@ =~= spec_rlc(old(state)@));
    }
}

/// Rotates the accumulator right one position, wrapping the bottom bit into
/// both Carry and the top bit.
pub fn rrc(state: &mut State8080)
    ensures
        final(state)@ == spec_rrc(old(state)@),
{
    state.cc.cy = state.a % 2 == 1;
    state.a = state.a / 2;
    if state.cc.cy {
        state.a += 128;
    }
    proof {
        assert(final(state)@ =~= spec_rrc(old(state)@));
    }
}

/// Rotates the accumulator left through the carry flag.
pub fn ral(state: &mut State8080)
    ensures
        final(state)@ == spec_ral(old(state)@),
{
    let old_carry = state.cc.cy;
    state.cc.cy = state.a >= 128;
    state.a = (state.a % 128) * 2;
    if old_carry {
        state.a += 1;
    }
    proof {
        assert(final(state)@ =~= spec_ral(old(state)@));
    }
}

/// Rotates the accumulator right through the carry flag.
pub fn rar(state: &mut State8080)
    ensures
        final(state)@ == spec_rar(old(state)@),
{
    let old_carry = state.cc.cy;
    state.cc.cy = state.a % 2 == 1;
    state.a = state.a / 2;
    if old_carry {
        state.a += 128;
    }
    proof {
        assert(final(state)@ =~= spec_rar(old(state)@));
    }
}

} // verus!
