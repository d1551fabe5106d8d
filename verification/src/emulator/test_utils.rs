//! A ready-made processor state for exercising single instructions: zeroed
//! memory and registers, with the stack pointer placed at a small address so
//! stack traffic is easy to inspect.

use vstd::prelude::*;

use crate::emulator::ConditionCodes;
use crate::emulator::MEMORY_SIZE;
use crate::emulator::State8080;

verus! {

/// A zero-filled processor state with the stack pointer at 100.
pub fn setup_state() -> (r: State8080)
    ensures
        r.wf(),
        r.a == 0 && r.b == 0 && r.c == 0 && r.d == 0 && r.e == 0 && r.h == 0 && r.l == 0,
        r.sp == 100,
        r.pc == 0,
        r.cc == (ConditionCodes {
            z: false,
            s: false,
            p: false,
            cy: false,
            ac: false,
            pad: false,
        }),
        !r.int_enable,
        forall|i: int| 0 <= i < MEMORY_SIZE ==> r.memory@[i] == 0u8,
{
    let contents: Vec<u8> = Vec::new();
    let mut state = State8080::new(contents);
    state.sp = 100;
    state
}

} // verus!
