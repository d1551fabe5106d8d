//! The processor state and the execution loop.
//!
//! [`State8080`] owns the register file, the flags, the 65,536-byte memory
//! and the two 16-bit address registers.  [`State8080::emulate_op`] fetches
//! the opcode byte at the program counter and applies its effect; the
//! mathematical model of that transition is [`spec_step`].

use vstd::prelude::*;

pub mod arithmetic;
pub mod branch;
pub mod logical;
pub mod test_utils;
pub mod utils;

use crate::emulator::arithmetic::spec_add_core;
use crate::emulator::arithmetic::spec_dad;
use crate::emulator::branch::spec_call;
use crate::emulator::branch::spec_conditional_jmp;
use crate::emulator::branch::spec_jmp;
use crate::emulator::branch::spec_ret;
use crate::emulator::logical::spec_ral;
use crate::emulator::logical::spec_rar;
use crate::emulator::logical::spec_rlc;
use crate::emulator::logical::spec_rrc;
use crate::emulator::utils::combine16;
use crate::emulator::utils::flags_from;
use crate::emulator::utils::wrap16;
use crate::emulator::utils::wrap8;

verus! {

/// The processor flags.  Zero, Sign, Parity and Carry are recomputed
/// wholesale from each flag-affecting operation's widened numeric result.
/// Auxiliary Carry is present as a field but not reliably recomputed, and
/// `pad` is unused padding; both are carried along unchanged.
#[derive(Debug)]
pub struct ConditionCodes {
    pub z: bool,
    pub s: bool,
    pub p: bool,
    pub cy: bool,
    pub ac: bool,
    pub pad: bool,
}

/// The mutable state of one emulated processor: the accumulator `a`, six
/// general-purpose registers, stack pointer, program counter, the flat
/// 65,536-byte memory, the flags and the interrupt-enable flag.
#[derive(Debug)]
pub struct State8080 {
    pub a: u8,
    pub b: u8,
    pub c: u8,
    pub d: u8,
    pub e: u8,
    pub h: u8,
    pub l: u8,
    pub sp: u16,
    pub pc: u16,
    pub memory: Vec<u8>,
    pub cc: ConditionCodes,
    pub int_enable: bool,
}

/// The mathematical model of a processor state: the same registers and
/// flags, with the memory abstracted to a sequence of bytes.
#[verifier::ext_equal]
pub struct Model8080 {
    pub a: u8,
    pub b: u8,
    pub c: u8,
    pub d: u8,
    pub e: u8,
    pub h: u8,
    pub l: u8,
    pub sp: u16,
    pub pc: u16,
    pub mem: Seq<u8>,
    pub cc: ConditionCodes,
    pub int_enable: bool,
}

impl View for State8080 {
    type V = Model8080;

    open spec fn view(&self) -> Model8080 {
        Model8080 {
            a: self.a,
            b: self.b,
            c: self.c,
            d: self.d,
            e: self.e,
            h: self.h,
            l: self.l,
            sp: self.sp,
            pc: self.pc,
            mem: self.memory@,
            cc: ConditionCodes { ..self.cc },
            int_enable: self.int_enable,
        }
    }
}

/// The size of the flat address space: every address is reduced modulo this
/// before memory is read or written.
pub const MEMORY_SIZE: usize = 0x10000;

impl Model8080 {
    /// Well-formedness: the memory buffer covers the full 16-bit address
    /// space, so every address a 16-bit register can form is in bounds.
    pub open spec fn wf(self) -> bool {
        self.mem.len() == MEMORY_SIZE
    }
}

/// The 16-bit value stored low byte first at `addr` in memory, the encoding
/// used for immediate operands and addresses in the instruction stream.
pub open spec fn word_at(mem: Seq<u8>, addr: u16) -> int {
    mem[wrap16(addr + 1) as int] * 256 + mem[addr as int]
}

/// An 8-bit operand read by its index in the opcode encoding: 0 through 5
/// name B, C, D, E, H and L, 7 names the accumulator, and 6 names the
/// memory-indirect operand at the address held by HL.
pub open spec fn spec_read_reg8(s: Model8080, idx: u8) -> u8 {
    if idx == 0 {
        s.b
    } else if idx == 1 {
        s.c
    } else if idx == 2 {
        s.d
    } else if idx == 3 {
        s.e
    } else if idx == 4 {
        s.h
    } else if idx == 5 {
        s.l
    } else if idx == 6 {
        s.mem[combine16(s.h, s.l)]
    } else {
        s.a
    }
}

/// Writes an 8-bit operand by its index in the opcode encoding; index 6
/// stores to memory at the address held by HL.
pub open spec fn spec_write_reg8(s: Model8080, idx: u8, v: u8) -> Model8080 {
    if idx == 0 {
        Model8080 { b: v, ..s }
    } else if idx == 1 {
        Model8080 { c: v, ..s }
    } else if idx == 2 {
        Model8080 { d: v, ..s }
    } else if idx == 3 {
        Model8080 { e: v, ..s }
    } else if idx == 4 {
        Model8080 { h: v, ..s }
    } else if idx == 5 {
        Model8080 { l: v, ..s }
    } else if idx == 6 {
        Model8080 { mem: s.mem.update(combine16(s.h, s.l), v), ..s }
    } else {
        Model8080 { a: v, ..s }
    }
}

/// A 16-bit register pair by its index in the opcode encoding: 0 is BC,
/// 1 is DE, 2 is HL, 3 is the stack pointer.
pub open spec fn spec_read_rp(s: Model8080, idx: u8) -> u16 {
    if idx == 0 {
        wrap16(combine16(s.b, s.c))
    } else if idx == 1 {
        wrap16(combine16(s.d, s.e))
    } else if idx == 2 {
        wrap16(combine16(s.h, s.l))
    } else {
        s.sp
    }
}

/// Writes a 16-bit register pair by its index in the opcode encoding.
pub open spec fn spec_write_rp(s: Model8080, idx: u8, v: u16) -> Model8080 {
    if idx == 0 {
        Model8080 { b: (v / 256) as u8, c: (v % 256) as u8, ..s }
    } else if idx == 1 {
        Model8080 { d: (v / 256) as u8, e: (v % 256) as u8, ..s }
    } else if idx == 2 {
        Model8080 { h: (v / 256) as u8, l: (v % 256) as u8, ..s }
    } else {
        Model8080 { sp: v, ..s }
    }
}

/// Whether an opcode byte has modeled behaviour.  A byte outside this set
/// is consumed with no state change beyond the program-counter advance.
pub open spec fn spec_modeled(op: u8) -> bool {
    (op < 0x90 && op != 0x27) || op == 0xc2 || op == 0xc3 || op == 0xc9 || op == 0xca || op
        == 0xcd || op == 0xd2 || op == 0xda || op == 0xe2 || op == 0xea || op == 0xf3 || op
        == 0xfb
}

/// The diagnostic event of one step: the opcode byte when it has no modeled
/// behaviour, so the caller can report it on its observability channel.
pub open spec fn spec_step_report(s: Model8080) -> Option<u8> {
    let op = s.mem[s.pc as int];
    if spec_modeled(op) {
        None
    } else {
        Some(op)
    }
}

/// The effect of the opcodes below 0x40 whose low octal digit is 7: the
/// four rotates, complement and carry manipulation.  The unimplemented
/// decimal adjust falls through with no effect.
pub open spec fn spec_exec_acc(op: u8, t: Model8080) -> Model8080 {
    if op == 0x07 {
        spec_rlc(t)
    } else if op == 0x0f {
        spec_rrc(t)
    } else if op == 0x17 {
        spec_ral(t)
    } else if op == 0x1f {
        spec_rar(t)
    } else if op == 0x2f {
        // CMA: complement the accumulator
        Model8080 { a: (255 - t.a) as u8, ..t }
    } else if op == 0x37 {
        // STC: set carry
        Model8080 { cc: ConditionCodes { cy: true, ..t.cc }, ..t }
    } else if op == 0x3f {
        // CMC: complement carry
        Model8080 { cc: ConditionCodes { cy: !t.cc.cy, ..t.cc }, ..t }
    } else {
        // 0x27, decimal adjust: not modeled
        t
    }
}

/// The effect of the opcodes below 0x40 whose low octal digit is 2: the
/// accumulator and HL transfers against memory, indirect through BC or DE
/// or at a direct little-endian address operand.
pub open spec fn spec_exec_mem(op: u8, t: Model8080) -> Model8080 {
    if op == 0x02 || op == 0x12 {
        // STAX: store the accumulator at the address held by BC or DE
        Model8080 { mem: t.mem.update(spec_read_rp(t, op / 16) as int, t.a), ..t }
    } else if op == 0x0a || op == 0x1a {
        // LDAX: load the accumulator from the address held by BC or DE
        Model8080 { a: t.mem[spec_read_rp(t, op / 16) as int], ..t }
    } else if op == 0x22 {
        // SHLD: store HL at the direct address, low byte at the lower address
        let addr = wrap16(word_at(t.mem, t.pc));
        let u = Model8080 { pc: wrap16(t.pc + 2), ..t };
        Model8080 { mem: u.mem.update(addr as int, u.l).update(wrap16(addr + 1) as int, u.h), ..u }
    } else if op == 0x2a {
        // LHLD: load HL from the direct address
        let addr = wrap16(word_at(t.mem, t.pc));
        let u = Model8080 { pc: wrap16(t.pc + 2), ..t };
        Model8080 { l: u.mem[addr as int], h: u.mem[wrap16(addr + 1) as int], ..u }
    } else if op == 0x32 {
        // STA: store the accumulator at the direct address
        let addr = wrap16(word_at(t.mem, t.pc));
        let u = Model8080 { pc: wrap16(t.pc + 2), ..t };
        Model8080 { mem: u.mem.update(addr as int, u.a), ..u }
    } else {
        // 0x3a, LDA: load the accumulator from the direct address
        let addr = wrap16(word_at(t.mem, t.pc));
        let u = Model8080 { pc: wrap16(t.pc + 2), ..t };
        Model8080 { a: u.mem[addr as int], ..u }
    }
}

/// The effect of the opcodes below 0x40: moves and arithmetic on register
/// pairs and single operands, keyed by the opcode's column in the table.
pub open spec fn spec_exec_low(op: u8, t: Model8080) -> Model8080 {
    if op % 8 == 0 {
        // NOP, including the unassigned bytes the chip treats alike
        t
    } else if op % 8 == 7 {
        spec_exec_acc(op, t)
    } else if op % 8 == 2 {
        spec_exec_mem(op, t)
    } else if op % 16 == 1 {
        // LXI: load a register pair with the immediate word
        let u = Model8080 { pc: wrap16(t.pc + 2), ..t };
        spec_write_rp(u, op / 16, wrap16(word_at(t.mem, t.pc)))
    } else if op % 16 == 9 {
        // DAD: add a register pair into HL
        spec_dad(t, spec_read_rp(t, op / 16))
    } else if op % 16 == 3 {
        // INX: increment a register pair, no flags
        spec_write_rp(t, op / 16, wrap16(spec_read_rp(t, op / 16) + 1))
    } else if op % 16 == 0xb {
        // DCX: decrement a register pair, no flags
        spec_write_rp(t, op / 16, wrap16(spec_read_rp(t, op / 16) - 1))
    } else if op % 8 == 4 {
        // INR: 8-bit increment with flags from the widened result
        let x = spec_read_reg8(t, op / 8);
        let u = Model8080 { cc: flags_from(x + 1, t.cc), ..t };
        spec_write_reg8(u, op / 8, wrap8(x + 1))
    } else if op % 8 == 5 {
        // DCR: 8-bit decrement with flags from the wrapped result
        let x = spec_read_reg8(t, op / 8);
        let u = Model8080 { cc: flags_from(wrap8(x - 1) as int, t.cc), ..t };
        spec_write_reg8(u, op / 8, wrap8(x - 1))
    } else {
        // MVI: load an operand with the immediate byte
        let v = t.mem[t.pc as int];
        let u = Model8080 { pc: wrap16(t.pc + 1), ..t };
        spec_write_reg8(u, op / 8, v)
    }
}

/// The effect of the modeled control-transfer opcodes.
pub open spec fn spec_exec_branch(op: u8, t: Model8080) -> Model8080 {
    if op == 0xc3 {
        spec_jmp(t)
    } else if op == 0xc2 {
        spec_conditional_jmp(!t.cc.z, t)
    } else if op == 0xca {
        spec_conditional_jmp(t.cc.z, t)
    } else if op == 0xd2 {
        spec_conditional_jmp(!t.cc.cy, t)
    } else if op == 0xda {
        spec_conditional_jmp(t.cc.cy, t)
    } else if op == 0xe2 {
        spec_conditional_jmp(!t.cc.p, t)
    } else if op == 0xea {
        spec_conditional_jmp(t.cc.p, t)
    } else if op == 0xcd {
        spec_call(t)
    } else {
        // 0xc9, RET
        spec_ret(t)
    }
}

/// The effect of an opcode byte on the state `t` in which the byte has
/// already been consumed: the dispatch over the full opcode space.  A byte
/// with no modeled behaviour leaves `t` unchanged.
pub open spec fn spec_exec(op: u8, t: Model8080) -> Model8080 {
    if op < 0x40 {
        spec_exec_low(op, t)
    } else if op < 0x80 {
        if op == 0x76 {
            // HLT: consumed with no further state change
            t
        } else {
            // MOV: copy between two 8-bit operands
            let v = spec_read_reg8(t, op % 8);
            spec_write_reg8(t, (op / 8 - 8) as u8, v)
        }
    } else if op < 0x90 {
        // ADD and ADC over the eight 8-bit operands
        let v = spec_read_reg8(t, op % 8);
        spec_add_core(t, v, op >= 0x88)
    } else if op == 0xc2 || op == 0xc3 || op == 0xc9 || op == 0xca || op == 0xcd || op == 0xd2
        || op == 0xda || op == 0xe2 || op == 0xea {
        spec_exec_branch(op, t)
    } else if op == 0xf3 {
        // DI: clear the interrupt-enable flag
        Model8080 { int_enable: false, ..t }
    } else if op == 0xfb {
        // EI: set the interrupt-enable flag
        Model8080 { int_enable: true, ..t }
    } else {
        t
    }
}

/// The mathematical model of one execution step: the opcode byte at the
/// program counter is consumed, the program counter advances past it, and
/// the byte's effect is applied to the resulting state.
pub open spec fn spec_step(s: Model8080) -> Model8080 {
    let op = s.mem[s.pc as int];
    let t = Model8080 { pc: wrap16(s.pc + 1), ..s };
    spec_exec(op, t)
}

/// A step never reads or writes memory outside the fixed buffer: the
/// buffer keeps its size, so every address a 16-bit register forms stays in
/// bounds for the next step as well.
pub proof fn lemma_step_preserves_wf(s: Model8080)
    requires
        s.wf(),
    ensures
        spec_step(s).wf(),
{
}

impl State8080 {
    /// Well-formedness of the executable state; established by `new` and
    /// preserved by every operation.
    pub open spec fn wf(self) -> bool {
        self@.wf()
    }

    /// Creates a processor state from a program image.  The image is copied
    /// to address 0 and the buffer truncated or zero-padded to exactly
    /// 65,536 bytes; registers and flags start cleared, the stack pointer
    /// high in memory, the program counter at 0.
    pub fn new(game_data: Vec<u8>) -> (r: State8080)
        ensures
            r.wf(),
            r.a == 0 && r.b == 0 && r.c == 0 && r.d == 0 && r.e == 0 && r.h == 0 && r.l == 0,
            r.sp == 0xf000,
            r.pc == 0,
            r.cc == (ConditionCodes {
                z: false,
                s: false,
                p: false,
                cy: false,
                ac: false,
                pad: false,
            }),
            !r.int_enable,
            forall|i: int|
                0 <= i < MEMORY_SIZE ==> r.memory@[i] == (if i < game_data@.len() {
                    game_data@[i]
                } else {
                    0u8
                }),
    {
        let codes = ConditionCodes {
            z: false,
            s: false,
            p: false,
            cy: false,
            ac: false,
            pad: false,
        };
        let mut memory: Vec<u8> = Vec::new();
        let mut i: usize = 0;
        while i < MEMORY_SIZE
            invariant
                i <= MEMORY_SIZE,
                memory@.len() == i,
                forall|j: int|
                    0 <= j < i ==> memory@[j] == (if j < game_data@.len() {
                        game_data@[j]
                    } else {
                        0u8
                    }),
            decreases MEMORY_SIZE - i,
        {
            if i < game_data.len() {
                let byte = game_data[i];
                memory.push(byte);
            } else {
                memory.push(0);
            }
            i += 1;
        }
        State8080 {
            a: 0,
            b: 0,
            c: 0,
            d: 0,
            e: 0,
            h: 0,
            l: 0,
            sp: 0xf000,
            pc: 0,
            memory,
            cc: codes,
            int_enable: false,
        }
    }

    /// Reads the byte at the program counter and advances the program
    /// counter by one, wrapping at the end of the address space.
    fn get_at_pc(&mut self) -> (value: u8)
        requires
            old(self).wf(),
        ensures
            final(self).wf(),
            value == old(self)@.mem[old(self).pc as int],
            final(self)@ == (Model8080 { pc: wrap16(old(self).pc + 1), ..old(self)@ }),
    {
        let value = self.memory[self.pc as usize];
        self.pc = if self.pc == 0xffff {
            0
        } else {
            self.pc + 1
        };
        value
    }

    /// Reads the 16-bit value encoded low byte first at the program counter
    /// and advances the program counter past both bytes.
    fn get_double_at_pc(&mut self) -> (value: u16)
        requires
            old(self).wf(),
        ensures
            final(self).wf(),
            value == word_at(old(self)@.mem, old(self).pc),
            final(self)@ == (Model8080 { pc: wrap16(old(self).pc + 2), ..old(self)@ }),
    {
        let lower = self.get_at_pc();
        let upper = self.get_at_pc();
        utils::combine(upper, lower)
    }

    /// The address held by the HL register pair, used for memory-indirect
    /// operands.
    fn m(&self) -> (r: u16)
        ensures
            r == combine16(self.h, self.l),
    {
        utils::combine(self.h, self.l)
    }

    /// The memory-indirect operand: the byte at the address held by HL.
    fn get_at_m(&self) -> (r: u8)
        requires
            self.wf(),
        ensures
            r == self@.mem[combine16(self.h, self.l)],
    {
        let m = self.m();
        self.memory[m as usize]
    }

    /// Reads an 8-bit operand by its index in the opcode encoding.
    fn read_reg8(&self, idx: u8) -> (r: u8)
        requires
            self.wf(),
            idx < 8,
        ensures
            r == spec_read_reg8(self@, idx),
    {
        if idx == 0 {
            self.b
        } else if idx == 1 {
            self.c
        } else if idx == 2 {
            self.d
        } else if idx == 3 {
            self.e
        } else if idx == 4 {
            self.h
        } else if idx == 5 {
            self.l
        } else if idx == 6 {
            self.get_at_m()
        } else {
            self.a
        }
    }

    /// Writes an 8-bit operand by its index in the opcode encoding.
    fn write_reg8(&mut self, idx: u8, v: u8)
        requires
            old(self).wf(),
            idx < 8,
        ensures
            final(self).wf(),
            final(self)@ == spec_write_reg8(old(self)@, idx, v),
    {
        if idx == 0 {
            self.b = v;
        } else if idx == 1 {
            self.c = v;
        } else if idx == 2 {
            self.d = v;
        } else if idx == 3 {
            self.e = v;
        } else if idx == 4 {
            self.h = v;
        } else if idx == 5 {
            self.l = v;
        } else if idx == 6 {
            let m = self.m();
            self.memory.set(m as usize, v);
        } else {
            self.a = v;
        }
        proof {
            assert(final(self)@ =~= spec_write_reg8(old(self)@, idx, v));
        }
    }

    /// Reads a 16-bit register pair by its index in the opcode encoding.
    fn read_rp(&self, idx: u8) -> (r: u16)
        requires
            idx < 4,
        ensures
            r == spec_read_rp(self@, idx),
    {
        if idx == 0 {
            utils::combine(self.b, self.c)
        } else if idx == 1 {
            utils::combine(self.d, self.e)
        } else if idx == 2 {
            utils::combine(self.h, self.l)
        } else {
            self.sp
        }
    }

    /// Writes a 16-bit register pair by its index in the opcode encoding.
    fn write_rp(&mut self, idx: u8, v: u16)
        requires
            old(self).wf(),
            idx < 4,
        ensures
            final(self).wf(),
            final(self)@ == spec_write_rp(old(self)@, idx, v),
    {
        if idx == 0 {
            let (upper, lower) = utils::split(v);
            self.b = upper;
            self.c = lower;
        } else if idx == 1 {
            let (upper, lower) = utils::split(v);
            self.d = upper;
            self.e = lower;
        } else if idx == 2 {
            let (upper, lower) = utils::split(v);
            self.h = upper;
            self.l = lower;
        } else {
            self.sp = v;
        }
        proof {
            assert(final(self)@ =~= spec_write_rp(old(self)@, idx, v));
        }
    }

    /// Applies an opcode below 0x40 whose low octal digit is 7: the rotate
    /// family, complement and carry manipulation.
    fn exec_acc(&mut self, code: u8)
        requires
            old(self).wf(),
            code < 0x40,
            code % 8 == 7,
        ensures
            final(self).wf(),
            final(self)@ == spec_exec_acc(code, old(self)@),
    {
        if code == 0x07 {
            logical::rlc(self);
        } else if code == 0x0f {
            logical::rrc(self);
        } else if code == 0x17 {
            logical::ral(self);
        } else if code == 0x1f {
            logical::rar(self);
        } else if code == 0x2f {
            self.a = 255 - self.a;
        } else if code == 0x37 {
            self.cc.cy = true;
        } else if code == 0x3f {
            self.cc.cy = !self.cc.cy;
        }
        proof {
            assert(final(self)@ =~= spec_exec_acc(code, old(self)@));
        }
    }

    /// Applies an opcode below 0x40 whose low octal digit is 2: the
    /// accumulator and HL transfers against memory.
    #[verifier::rlimit(30)]
    fn exec_mem(&mut self, code: u8)
        requires
            old(self).wf(),
            code < 0x40,
            code % 8 == 2,
        ensures
            final(self).wf(),
            final(self)@ == spec_exec_mem(code, old(self)@),
    {
        if code == 0x02 || code == 0x12 {
            let destination = self.read_rp(code / 16);
            self.memory.set(destination as usize, self.a);
        } else if code == 0x0a || code == 0x1a {
            let target = self.read_rp(code / 16);
            self.a = self.memory[target as usize];
        } else if code == 0x22 {
            let addr = self.get_double_at_pc();
            self.memory.set(addr as usize, self.l);
            let upper_slot = utils::wrapping_add16(addr, 1);
            self.memory.set(upper_slot as usize, self.h);
        } else if code == 0x2a {
            let addr = self.get_double_at_pc();
            self.l = self.memory[addr as usize];
            let upper_slot = utils::wrapping_add16(addr, 1);
            self.h = self.memory[upper_slot as usize];
        } else if code == 0x32 {
            let addr = self.get_double_at_pc();
            self.memory.set(addr as usize, self.a);
        } else {
            let addr = self.get_double_at_pc();
            self.a = self.memory[addr as usize];
        }
        proof {
            assert(final(self)@ =~= spec_exec_mem(code, old(self)@));
        }
    }

    /// Applies an opcode below 0x40: moves and arithmetic on register pairs
    /// and single operands.
    fn exec_low(&mut self, code: u8)
        requires
            old(self).wf(),
            code < 0x40,
        ensures
            final(self).wf(),
            final(self)@ == spec_exec_low(code, old(self)@),
    {
        if code % 8 == 0 {
            // NOP
        } else if code % 8 == 7 {
            self.exec_acc(code);
        } else if code % 8 == 2 {
            self.exec_mem(code);
        } else if code % 16 == 1 {
            let value = self.get_double_at_pc();
            self.write_rp(code / 16, value);
        } else if code % 16 == 9 {
            let num = self.read_rp(code / 16);
            arithmetic::dad(num, self);
        } else if code % 16 == 3 {
            let pair = self.read_rp(code / 16);
            let incremented = utils::wrapping_add16(pair, 1);
            self.write_rp(code / 16, incremented);
        } else if code % 16 == 0xb {
            let pair = self.read_rp(code / 16);
            let decremented = utils::wrapping_sub16(pair, 1);
            self.write_rp(code / 16, decremented);
        } else if code % 8 == 4 {
            let mut value = self.read_reg8(code / 8);
            arithmetic::inr(&mut value, &mut self.cc);
            self.write_reg8(code / 8, value);
        } else if code % 8 == 5 {
            let mut value = self.read_reg8(code / 8);
            arithmetic::dcr(&mut value, &mut self.cc);
            self.write_reg8(code / 8, value);
        } else {
            let value = self.get_at_pc();
            self.write_reg8(code / 8, value);
        }
        proof {
            assert(final(self)@ =~= spec_exec_low(code, old(self)@));
        }
    }

    /// Applies a modeled control-transfer opcode.
    fn exec_branch(&mut self, code: u8)
        requires
            old(self).wf(),
            code == 0xc2 || code == 0xc3 || code == 0xc9 || code == 0xca || code == 0xcd || code
                == 0xd2 || code == 0xda || code == 0xe2 || code == 0xea,
        ensures
            final(self).wf(),
            final(self)@ == spec_exec_branch(code, old(self)@),
    {
        if code == 0xc3 {
            branch::jmp(self);
        } else if code == 0xc2 {
            branch::conditional_jmp(!self.cc.z, self);
        } else if code == 0xca {
            branch::conditional_jmp(self.cc.z, self);
        } else if code == 0xd2 {
            branch::conditional_jmp(!self.cc.cy, self);
        } else if code == 0xda {
            branch::conditional_jmp(self.cc.cy, self);
        } else if code == 0xe2 {
            branch::conditional_jmp(!self.cc.p, self);
        } else if code == 0xea {
            branch::conditional_jmp(self.cc.p, self);
        } else if code == 0xcd {
            branch::call(self);
        } else {
            branch::ret(self);
        }
        proof {
            assert(final(self)@ =~= spec_exec_branch(code, old(self)@));
        }
    }

    /// Executes one instruction: fetches the opcode byte at the program
    /// counter, advances past it, and applies the opcode's effect exactly as
    /// [`spec_step`] states.  An opcode outside the modeled subset is
    /// consumed with no further state change and returned as a diagnostic
    /// event, so the caller can report it and keep stepping.
    pub fn emulate_op(&mut self) -> (r: Option<u8>)
        requires
            old(self).wf(),
        ensures
            final(self).wf(),
            final(self)@ == spec_step(old(self)@),
            r == spec_step_report(old(self)@),
    {
        let code = self.get_at_pc();
        if code < 0x40 {
            self.exec_low(code);
            proof {
                assert(final(self)@ =~= spec_step(old(self)@));
            }
            if code == 0x27 {
                Some(code)
            } else {
                None
            }
        } else if code < 0x80 {
            if code != 0x76 {
                let value = self.read_reg8(code % 8);
                self.write_reg8(code / 8 - 8, value);
            }
            proof {
                assert(final(self)@ =~= spec_step(old(self)@));
            }
            None
        } else if code < 0x90 {
            let value = self.read_reg8(code % 8);
            if code >= 0x88 {
                arithmetic::adc(value, self);
            } else {
                arithmetic::add(value, self);
            }
            proof {
                assert(final(self)@ =~= spec_step(old(self)@));
            }
            None
        } else if code == 0xc2 || code == 0xc3 || code == 0xc9 || code == 0xca || code == 0xcd
            || code == 0xd2 || code == 0xda || code == 0xe2 || code == 0xea {
            self.exec_branch(code);
            proof {
                assert(final(self)@ =~= spec_step(old(self)@));
            }
            None
        } else if code == 0xf3 {
            self.int_enable = false;
            proof {
                assert(final(self)@ =~= spec_step(old(self)@));
            }
            None
        } else if code == 0xfb {
            self.int_enable = true;
            proof {
                assert(final(self)@ =~= spec_step(old(self)@));
            }
            None
        } else {
            // No modeled behaviour: the byte is consumed, nothing else
            // changes, and the byte is reported as a diagnostic event.
            proof {
                assert(final(self)@ =~= spec_step(old(self)@));
            }
            Some(code)
        }
    }
}

} // verus!
