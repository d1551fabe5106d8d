//! Numeric utilities: 16-bit pairing and splitting of 8-bit values, parity
//! computation, and flag derivation from a widened arithmetic result.

use vstd::prelude::*;

use crate::emulator::ConditionCodes;

verus! {

/// The 16-bit value formed by a register pair: the high register gives
/// bits 15-8, the low register bits 7-0.
pub open spec fn combine16(upper: u8, lower: u8) -> int {
    upper * 256 + lower
}

/// Reduction of an arbitrary integer into the 16-bit address space.
pub open spec fn wrap16(v: int) -> u16 {
    (v % 0x10000) as u16
}

/// Reduction of an arbitrary integer into the 8-bit register range.
pub open spec fn wrap8(v: int) -> u8 {
    (v % 0x100) as u8
}

/// The number of set bits among the low `n` bits of `v`.
pub open spec fn pop_bits(v: int, n: nat) -> int
    decreases n,
{
    if n == 0 {
        0
    } else {
        v % 2 + pop_bits(v / 2, (n - 1) as nat)
    }
}

/// Even parity of the low eight bits of `v`.
pub open spec fn even_parity8(v: int) -> bool {
    pop_bits(v % 256, 8) % 2 == 0
}

/// The flag word derived wholesale from a widened arithmetic result:
/// Zero, Sign and Parity look at the result's low byte, Carry at whether the
/// result exceeded the 8-bit range.  Auxiliary Carry is not recomputed.
pub open spec fn flags_from(answer: int, prev: ConditionCodes) -> ConditionCodes {
    ConditionCodes {
        z: answer % 256 == 0,
        s: answer % 256 >= 128,
        cy: answer > 255,
        p: even_parity8(answer),
        ac: prev.ac,
        pad: prev.pad,
    }
}

/// Concatenates two 8-bit halves into the 16-bit value they form as a pair.
pub fn combine(upper: u8, lower: u8) -> (r: u16)
    ensures
        r == combine16(upper, lower),
{
    (upper as u16) * 256 + (lower as u16)
}

/// Splits a 16-bit value into its high and low byte, inverting `combine`.
pub fn split(num: u16) -> (r: (u8, u8))
    ensures
        r.0 == num / 256,
        r.1 == num % 256,
        combine16(r.0, r.1) == num,
{
    ((num / 256) as u8, (num % 256) as u8)
}

/// Whether the low `size` bits of `value_to_check` hold an even number of ones.
pub fn parity(value_to_check: usize, size: usize) -> (r: bool)
    ensures
        r == (pop_bits(value_to_check as int, size as nat) % 2 == 0),
{
    let mut set_bits: usize = 0;
    let mut temp: usize = value_to_check;
    let mut i: usize = 0;
    while i < size
        invariant
            i <= size,
            set_bits <= i,
            pop_bits(value_to_check as int, size as nat) == set_bits + pop_bits(
                temp as int,
                (size - i) as nat,
            ),
        decreases size - i,
    {
        if temp % 2 == 1 {
            set_bits += 1;
        }
        temp = temp / 2;
        i += 1;
    }
    set_bits % 2 == 0
}

/// 16-bit addition that wraps silently at the end of the address space.
pub fn wrapping_add16(x: u16, k: u16) -> (r: u16)
    ensures
        r == wrap16(x + k),
{
    if x as u32 + k as u32 <= 0xffff {
        x + k
    } else {
        ((x as u32 + k as u32) - 0x10000) as u16
    }
}

/// 16-bit subtraction that wraps silently below zero.
pub fn wrapping_sub16(x: u16, k: u16) -> (r: u16)
    ensures
        r == wrap16(x - k),
{
    if x >= k {
        x - k
    } else {
        (0x10000u32 + x as u32 - k as u32) as u16
    }
}

/// Recomputes Zero, Sign, Carry and Parity from a widened result, leaving
/// Auxiliary Carry untouched.
pub fn update_flags(value: u16, codes: &mut ConditionCodes)
    ensures
        *final(codes) == flags_from(value as int, *old(codes)),
{
    codes.z = value % 256 == 0;
    codes.s = value % 256 >= 128;
    codes.cy = value > 255;
    codes.p = parity((value % 256) as usize, 8);
}

} // verus!
