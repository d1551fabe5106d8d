//! The arithmetic and increment unit: accumulator addition with and without
//! carry, 16-bit pair addition, pair increment and decrement, and 8-bit
//! increment and decrement.
//!
//! Every 8-bit result is computed in a widened intermediate so Carry can be
//! observed before truncation back to 8 bits, and every 16-bit pair result
//! wraps modulo 65,536.

use vstd::prelude::*;

use crate::emulator::ConditionCodes;
use crate::emulator::Model8080;
use crate::emulator::State8080;
use crate::emulator::utils;
use crate::emulator::utils::combine16;
use crate::emulator::utils::even_parity8;
use crate::emulator::utils::flags_from;
use crate::emulator::utils::wrap8;

verus! {

/// The widened sum that an accumulator addition computes: the accumulator
/// plus the operand, plus one more when adding with carry and Carry is set.
pub open spec fn add_answer(s: Model8080, value: u8, use_carry: bool) -> int {
    s.a + value + if use_carry && s.cc.cy {
        1int
    } else {
        0int
    }
}

/// The state after an accumulator addition: the accumulator holds the
/// truncated low byte of the widened sum and the flags are derived from the
/// widened sum; nothing else changes.
pub open spec fn spec_add_core(s: Model8080, value: u8, use_carry: bool) -> Model8080 {
    let answer = add_answer(s, value, use_carry);
    Model8080 { a: wrap8(answer), cc: flags_from(answer, s.cc), ..s }
}

/// The state after a 16-bit pair addition into HL: HL holds the wrapped
/// 16-bit sum, and only Carry is rewritten, from whether the widened sum
/// exceeded 0xFFFF.
pub open spec fn spec_dad(s: Model8080, num: u16) -> Model8080 {
    let total = combine16(s.h, s.l) + num;
    let wrapped = total % 0x10000;
    Model8080 {
        h: (wrapped / 256) as u8,
        l: (wrapped % 256) as u8,
        cc: ConditionCodes { cy: total > 0xffff, ..s.cc },
        ..s
    }
}

/// The pair after a 16-bit increment, written as byte-level carry
/// propagation between the two halves.
pub open spec fn spec_inx(upper: u8, lower: u8) -> (u8, u8) {
    if lower < 255 {
        (upper, (lower + 1) as u8)
    } else if upper < 255 {
        ((upper + 1) as u8, 0u8)
    } else {
        (0u8, 0u8)
    }
}

/// The pair after a 16-bit decrement, written as byte-level borrow
/// propagation between the two halves.
pub open spec fn spec_dcx(upper: u8, lower: u8) -> (u8, u8) {
    if lower > 0 {
        (upper, (lower - 1) as u8)
    } else if upper > 0 {
        ((upper - 1) as u8, 255u8)
    } else {
        (255u8, 255u8)
    }
}

/// INX and DCX are exact mutual inverses over the full 16-bit range,
/// including wraparound at 0x0000 and 0xFFFF.
pub proof fn lemma_inx_dcx_inverse(upper: u8, lower: u8)
    ensures
        spec_dcx(spec_inx(upper, lower).0, spec_inx(upper, lower).1) == (upper, lower),
        spec_inx(spec_dcx(upper, lower).0, spec_dcx(upper, lower).1) == (upper, lower),
{
}

/// Accumulator addition: accumulator plus operand, flags from the widened
/// sum, result truncated to 8 bits.
pub fn add(value: u8, state: &mut State8080)
    ensures
        final(state)@ == spec_add_core(old(state)@, value, false),
        final(state).a == (old(state).a + value) % 256,
        final(state).cc.cy == (old(state).a + value > 255),
        final(state).cc.z == (final(state).a == 0),
        final(state).cc.s == (final(state).a >= 128),
        final(state).cc.p == even_parity8(final(state).a as int),
{
    add_core(value, state, false);
}

/// Accumulator addition with carry: as `add`, plus one more when Carry was
/// set before the operation.
pub fn adc(value: u8, state: &mut State8080)
    ensures
        final(state)@ == spec_add_core(old(state)@, value, true),
        final(state).a == (old(state).a + value + if old(state).cc.cy {
            1int
        } else {
            0int
        }) % 256,
        final(state).cc.cy == (old(state).a + value + if old(state).cc.cy {
            1int
        } else {
            0int
        } > 255),
        final(state).cc.z == (final(state).a == 0),
        final(state).cc.s == (final(state).a >= 128),
        final(state).cc.p == even_parity8(final(state).a as int),
{
    add_core(value, state, true);
}

fn add_core(value: u8, state: &mut State8080, use_carry: bool)
    ensures
        final(state)@ == spec_add_core(old(state)@, value, use_carry),
{
    let answer: u16 = state.a as u16 + value as u16 + if use_carry && state.cc.cy {
        1
    } else {
        0
    };
    utils::update_flags(answer, &mut state.cc);
    state.a = (answer % 256) as u8;
    proof {
        assert(final(state)@ =~= spec_add_core(old(state)@, value, use_carry));
    }
}

/// 16-bit pair addition into HL.  Carry is set if and only if the widened
/// sum of the two pairs exceeds 0xFFFF; Zero, Sign and Parity are never
/// modified, matching the chip's selective flag behaviour for this one
/// instruction.
pub fn dad(num: u16, state: &mut State8080)
    ensures
        final(state)@ == spec_dad(old(state)@, num),
        combine16(final(state).h, final(state).l) == (combine16(old(state).h, old(state).l)
            + num) % 0x10000,
        final(state).cc.cy == (combine16(old(state).h, old(state).l) + num > 0xffff),
        final(state).cc.z == old(state).cc.z,
        final(state).cc.s == old(state).cc.s,
        final(state).cc.p == old(state).cc.p,
{
    let other: u32 = utils::combine(state.h, state.l) as u32;
    let answer: u32 = num as u32 + other;
    state.cc.cy = answer > 0xffff;
    let (upper, lower) = utils::split((answer % 0x10000) as u16);
    state.h = upper;
    state.l = lower;
    proof {
        assert(final(state)@ =~= spec_dad(old(state)@, num));
    }
}

/// 16-bit pair increment: adds one to the low half, carrying into the high
/// half on wrap.  No flags are affected.
pub fn inx(upper: &mut u8, lower: &mut u8)
    ensures
        (*final(upper), *final(lower)) == spec_inx(*old(upper), *old(lower)),
        combine16(*final(upper), *final(lower)) == (combine16(*old(upper), *old(lower)) + 1)
            % 0x10000,
{
    if *lower < 255 {
        *lower += 1;
    } else {
        *lower = 0;
        if *upper < 255 {
            *upper += 1;
        } else {
            *upper = 0;
        }
    }
}

/// 16-bit pair decrement: subtracts one from the low half, borrowing from
/// the high half on wrap.  No flags are affected.
pub fn dcx(upper: &mut u8, lower: &mut u8)
    ensures
        (*final(upper), *final(lower)) == spec_dcx(*old(upper), *old(lower)),
        combine16(*final(upper), *final(lower)) == (combine16(*old(upper), *old(lower)) - 1)
            % 0x10000,
{
    if *lower > 0 {
        *lower -= 1;
    } else {
        *lower = 0xff;
        if *upper > 0 {
            *upper -= 1;
        } else {
            *upper = 0xff;
        }
    }
}

/// 8-bit increment with flags from the widened result.  Carry is observed
/// when 0xFF wraps to 0.
pub fn inr(value: &mut u8, codes: &mut ConditionCodes)
    ensures
        *final(value) == wrap8(*old(value) + 1),
        *final(codes) == flags_from(*old(value) + 1, *old(codes)),
{
    let answer: u16 = *value as u16 + 1;
    utils::update_flags(answer, codes);
    *value = (answer % 256) as u8;
}

/// 8-bit decrement with flags from the wrapped result.  Decrementing zero
/// wraps to 0xFF and the flags reflect that wrapped value.
pub fn dcr(value: &mut u8, codes: &mut ConditionCodes)
    ensures
        *final(value) == wrap8(*old(value) - 1),
        *final(codes) == flags_from(wrap8(*old(value) - 1) as int, *old(codes)),
{
    if *value > 0 {
        let answer: u16 = *value as u16 - 1;
        utils::update_flags(answer, codes);
        *value = (answer % 256) as u8;
    } else {
        *value = 0xff;
        utils::update_flags(0xff, codes);
    }
}

} // verus!
