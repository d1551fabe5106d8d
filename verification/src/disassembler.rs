//! Formats an opcode byte stream as human-readable mnemonics, for
//! diagnostic tracing.
//!
//! The per-opcode byte length lives in one authoritative table,
//! [`spec_op_len`], consumed both here and — as
//! [`lemma_step_consumes_op_len`] proves — by the execution unit, so the
//! two cannot drift apart.

use vstd::prelude::*;

use crate::emulator::MEMORY_SIZE;
use crate::emulator::Model8080;
use crate::emulator::spec_modeled;
use crate::emulator::spec_step;
use crate::emulator::utils::wrap16;

verus! {

/// The number of instruction-stream bytes an opcode occupies: the opcode
/// byte itself plus its immediate operand bytes, if any.
pub open spec fn spec_op_len(op: u8) -> int {
    if op < 0x40 {
        if op % 16 == 1 || op == 0x22 || op == 0x2a || op == 0x32 || op == 0x3a {
            3
        } else if op % 8 == 6 {
            2
        } else {
            1
        }
    } else if op < 0xc0 {
        1
    } else {
        if op % 8 == 2 || op % 8 == 4 || op == 0xc3 || op == 0xcd {
            3
        } else if op % 8 == 6 || op == 0xd3 || op == 0xdb {
            2
        } else {
            1
        }
    }
}

/// The instruction length of an opcode: 1, 2 or 3 bytes.
pub fn op_len(code: u8) -> (n: usize)
    ensures
        n == spec_op_len(code),
        1 <= n <= 3,
{
    if code < 0x40 {
        if code % 16 == 1 || code == 0x22 || code == 0x2a || code == 0x32 || code == 0x3a {
            3
        } else if code % 8 == 6 {
            2
        } else {
            1
        }
    } else if code < 0xc0 {
        1
    } else {
        if code % 8 == 2 || code % 8 == 4 || code == 0xc3 || code == 0xcd {
            3
        } else if code % 8 == 6 || code == 0xd3 || code == 0xdb {
            2
        } else {
            1
        }
    }
}

/// The operand name of an 8-bit operand index: the six registers, the
/// memory-indirect operand M, and the accumulator.
pub open spec fn spec_reg_name(idx: u8) -> Seq<char> {
    if idx == 0 {
        "B"@
    } else if idx == 1 {
        "C"@
    } else if idx == 2 {
        "D"@
    } else if idx == 3 {
        "E"@
    } else if idx == 4 {
        "H"@
    } else if idx == 5 {
        "L"@
    } else if idx == 6 {
        "M"@
    } else {
        "A"@
    }
}

fn reg_name(idx: u8) -> (r: &'static str)
    requires
        idx < 8,
    ensures
        r@ == spec_reg_name(idx),
{
    if idx == 0 {
        "B"
    } else if idx == 1 {
        "C"
    } else if idx == 2 {
        "D"
    } else if idx == 3 {
        "E"
    } else if idx == 4 {
        "H"
    } else if idx == 5 {
        "L"
    } else if idx == 6 {
        "M"
    } else {
        "A"
    }
}

/// The name of a register pair index: BC, DE and HL go by their high
/// register, index 3 is the stack pointer.
pub open spec fn spec_rp_name(idx: u8) -> Seq<char> {
    if idx == 0 {
        "B"@
    } else if idx == 1 {
        "D"@
    } else if idx == 2 {
        "H"@
    } else {
        "SP"@
    }
}

fn rp_name(idx: u8) -> (r: &'static str)
    requires
        idx < 4,
    ensures
        r@ == spec_rp_name(idx),
{
    if idx == 0 {
        "B"
    } else if idx == 1 {
        "D"
    } else if idx == 2 {
        "H"
    } else {
        "SP"
    }
}

/// The mnemonic text of an opcode below 0x40, up to but not including any
/// operand digits.
pub open spec fn spec_text_low(op: u8) -> Seq<char> {
    if op % 8 == 0 {
        if op == 0x20 {
            "RIM"@
        } else if op == 0x30 {
            "SIM"@
        } else {
            "NOP"@
        }
    } else if op % 8 == 7 {
        if op == 0x07 {
            "RLC"@
        } else if op == 0x0f {
            "RRC"@
        } else if op == 0x17 {
            "RAL"@
        } else if op == 0x1f {
            "RAR"@
        } else if op == 0x27 {
            "DAA"@
        } else if op == 0x2f {
            "CMA"@
        } else if op == 0x37 {
            "STC"@
        } else {
            "CMC"@
        }
    } else if op % 8 == 2 {
        if op == 0x02 {
            "STAX   B"@
        } else if op == 0x12 {
            "STAX   D"@
        } else if op == 0x0a {
            "LDAX   B"@
        } else if op == 0x1a {
            "LDAX   D"@
        } else if op == 0x22 {
            "SHLD   $"@
        } else if op == 0x2a {
            "LHLD   $"@
        } else if op == 0x32 {
            "STA    $"@
        } else {
            "LDA    $"@
        }
    } else if op % 16 == 1 {
        "LXI    "@ + spec_rp_name(op / 16) + ",#$"@
    } else if op % 16 == 9 {
        "DAD    "@ + spec_rp_name(op / 16)
    } else if op % 16 == 3 {
        "INX    "@ + spec_rp_name(op / 16)
    } else if op % 16 == 0xb {
        "DCX    "@ + spec_rp_name(op / 16)
    } else if op % 8 == 4 {
        "INR    "@ + spec_reg_name(op / 8)
    } else if op % 8 == 5 {
        "DCR    "@ + spec_reg_name(op / 8)
    } else {
        "MVI    "@ + spec_reg_name(op / 8) + ",#$"@
    }
}

fn text_low(code: u8) -> (r: String)
    requires
        code < 0x40,
    ensures
        r@ == spec_text_low(code),
{
    if code % 8 == 0 {
        if code == 0x20 {
            String::from_str("RIM")
        } else if code == 0x30 {
            String::from_str("SIM")
        } else {
            String::from_str("NOP")
        }
    } else if code % 8 == 7 {
        if code == 0x07 {
            String::from_str("RLC")
        } else if code == 0x0f {
            String::from_str("RRC")
        } else if code == 0x17 {
            String::from_str("RAL")
        } else if code == 0x1f {
            String::from_str("RAR")
        } else if code == 0x27 {
            String::from_str("DAA")
        } else if code == 0x2f {
            String::from_str("CMA")
        } else if code == 0x37 {
            String::from_str("STC")
        } else {
            String::from_str("CMC")
        }
    } else if code % 8 == 2 {
        if code == 0x02 {
            String::from_str("STAX   B")
        } else if code == 0x12 {
            String::from_str("STAX   D")
        } else if code == 0x0a {
            String::from_str("LDAX   B")
        } else if code == 0x1a {
            String::from_str("LDAX   D")
        } else if code == 0x22 {
            String::from_str("SHLD   $")
        } else if code == 0x2a {
            String::from_str("LHLD   $")
        } else if code == 0x32 {
            String::from_str("STA    $")
        } else {
            String::from_str("LDA    $")
        }
    } else if code % 16 == 1 {
        String::from_str("LXI    ").concat(rp_name(code / 16)).concat(",#$")
    } else if code % 16 == 9 {
        String::from_str("DAD    ").concat(rp_name(code / 16))
    } else if code % 16 == 3 {
        String::from_str("INX    ").concat(rp_name(code / 16))
    } else if code % 16 == 0xb {
        String::from_str("DCX    ").concat(rp_name(code / 16))
    } else if code % 8 == 4 {
        String::from_str("INR    ").concat(reg_name(code / 8))
    } else if code % 8 == 5 {
        String::from_str("DCR    ").concat(reg_name(code / 8))
    } else {
        String::from_str("MVI    ").concat(reg_name(code / 8)).concat(",#$")
    }
}

/// The mnemonic of an arithmetic or logical family in the 0x80 to 0xbf
/// rows, padded to the operand column.
pub open spec fn spec_family_name(idx: u8) -> Seq<char> {
    if idx == 0 {
        "ADD    "@
    } else if idx == 1 {
        "ADC    "@
    } else if idx == 2 {
        "SUB    "@
    } else if idx == 3 {
        "SBB    "@
    } else if idx == 4 {
        "ANA    "@
    } else if idx == 5 {
        "XRA    "@
    } else if idx == 6 {
        "ORA    "@
    } else {
        "CMP    "@
    }
}

fn family_name(idx: u8) -> (r: &'static str)
    requires
        idx < 8,
    ensures
        r@ == spec_family_name(idx),
{
    if idx == 0 {
        "ADD    "
    } else if idx == 1 {
        "ADC    "
    } else if idx == 2 {
        "SUB    "
    } else if idx == 3 {
        "SBB    "
    } else if idx == 4 {
        "ANA    "
    } else if idx == 5 {
        "XRA    "
    } else if idx == 6 {
        "ORA    "
    } else {
        "CMP    "
    }
}

/// The mnemonic text of the 0xc0 and 0xd0 rows, up to any operand digits.
pub open spec fn spec_text_cd(op: u8) -> Seq<char> {
    if op == 0xc0 {
        "RNZ"@
    } else if op == 0xc1 {
        "POP    B"@
    } else if op == 0xc2 {
        "JNZ    $"@
    } else if op == 0xc3 {
        "JMP    $"@
    } else if op == 0xc4 {
        "CNZ    $"@
    } else if op == 0xc5 {
        "PUSH   B"@
    } else if op == 0xc6 {
        "ADI    #$"@
    } else if op == 0xc7 {
        "RST    0"@
    } else if op == 0xc8 {
        "RZ"@
    } else if op == 0xc9 {
        "RET"@
    } else if op == 0xca {
        "JZ     $"@
    } else if op == 0xcb {
        "NOP"@
    } else if op == 0xcc {
        "CZ     $"@
    } else if op == 0xcd {
        "CALL   $"@
    } else if op == 0xce {
        "ACI    #$"@
    } else if op == 0xcf {
        "RST    1"@
    } else if op == 0xd0 {
        "RNC"@
    } else if op == 0xd1 {
        "POP    D"@
    } else if op == 0xd2 {
        "JNC    $"@
    } else if op == 0xd3 {
        "OUT    #$"@
    } else if op == 0xd4 {
        "CNC    $"@
    } else if op == 0xd5 {
        "PUSH   D"@
    } else if op == 0xd6 {
        "SUI    #$"@
    } else if op == 0xd7 {
        "RST    2"@
    } else if op == 0xd8 {
        "RC"@
    } else if op == 0xd9 {
        "NOP"@
    } else if op == 0xda {
        "JC     $"@
    } else if op == 0xdb {
        "IN     #$"@
    } else if op == 0xdc {
        "CC     $"@
    } else if op == 0xdd {
        "NOP"@
    } else if op == 0xde {
        "SBI    #$"@
    } else {
        "RST    3"@
    }
}

fn text_cd(code: u8) -> (r: String)
    requires
        0xc0 <= code < 0xe0,
    ensures
        r@ == spec_text_cd(code),
{
    if code == 0xc0 {
        String::from_str("RNZ")
    } else if code == 0xc1 {
        String::from_str("POP    B")
    } else if code == 0xc2 {
        String::from_str("JNZ    $")
    } else if code == 0xc3 {
        String::from_str("JMP    $")
    } else if code == 0xc4 {
        String::from_str("CNZ    $")
    } else if code == 0xc5 {
        String::from_str("PUSH   B")
    } else if code == 0xc6 {
        String::from_str("ADI    #$")
    } else if code == 0xc7 {
        String::from_str("RST    0")
    } else if code == 0xc8 {
        String::from_str("RZ")
    } else if code == 0xc9 {
        String::from_str("RET")
    } else if code == 0xca {
        String::from_str("JZ     $")
    } else if code == 0xcb {
        String::from_str("NOP")
    } else if code == 0xcc {
        String::from_str("CZ     $")
    } else if code == 0xcd {
        String::from_str("CALL   $")
    } else if code == 0xce {
        String::from_str("ACI    #$")
    } else if code == 0xcf {
        String::from_str("RST    1")
    } else if code == 0xd0 {
        String::from_str("RNC")
    } else if code == 0xd1 {
        String::from_str("POP    D")
    } else if code == 0xd2 {
        String::from_str("JNC    $")
    } else if code == 0xd3 {
        String::from_str("OUT    #$")
    } else if code == 0xd4 {
        String::from_str("CNC    $")
    } else if code == 0xd5 {
        String::from_str("PUSH   D")
    } else if code == 0xd6 {
        String::from_str("SUI    #$")
    } else if code == 0xd7 {
        String::from_str("RST    2")
    } else if code == 0xd8 {
        String::from_str("RC")
    } else if code == 0xd9 {
        String::from_str("NOP")
    } else if code == 0xda {
        String::from_str("JC     $")
    } else if code == 0xdb {
        String::from_str("IN     #$")
    } else if code == 0xdc {
        String::from_str("CC     $")
    } else if code == 0xdd {
        String::from_str("NOP")
    } else if code == 0xde {
        String::from_str("SBI    #$")
    } else {
        String::from_str("RST    3")
    }
}

/// The mnemonic text of the 0xe0 and 0xf0 rows, up to any operand digits.
pub open spec fn spec_text_ef(op: u8) -> Seq<char> {
    if op == 0xe0 {
        "RPO"@
    } else if op == 0xe1 {
        "POP    H"@
    } else if op == 0xe2 {
        "JPO    $"@
    } else if op == 0xe3 {
        "XTHL"@
    } else if op == 0xe4 {
        "CPO    $"@
    } else if op == 0xe5 {
        "PUSH   H"@
    } else if op == 0xe6 {
        "ANI    #$"@
    } else if op == 0xe7 {
        "RST    4"@
    } else if op == 0xe8 {
        "RPE"@
    } else if op == 0xe9 {
        "PCHL"@
    } else if op == 0xea {
        "JPE    $"@
    } else if op == 0xeb {
        "XCHG"@
    } else if op == 0xec {
        "CPE    $"@
    } else if op == 0xed {
        "NOP"@
    } else if op == 0xee {
        "XRI    #$"@
    } else if op == 0xef {
        "RST    5"@
    } else if op == 0xf0 {
        "RP"@
    } else if op == 0xf1 {
        "POP    PSW"@
    } else if op == 0xf2 {
        "JP     $"@
    } else if op == 0xf3 {
        "DI"@
    } else if op == 0xf4 {
        "CP     $"@
    } else if op == 0xf5 {
        "PUSH   PSW"@
    } else if op == 0xf6 {
        "ORI    #$"@
    } else if op == 0xf7 {
        "RST    6"@
    } else if op == 0xf8 {
        "RM"@
    } else if op == 0xf9 {
        "SPHL"@
    } else if op == 0xfa {
        "JM     $"@
    } else if op == 0xfb {
        "EI"@
    } else if op == 0xfc {
        "CM     $"@
    } else if op == 0xfd {
        "NOP"@
    } else if op == 0xfe {
        "CPI    #$"@
    } else {
        "RST    7"@
    }
}

fn text_ef(code: u8) -> (r: String)
    requires
        0xe0 <= code,
    ensures
        r@ == spec_text_ef(code),
{
    if code == 0xe0 {
        String::from_str("RPO")
    } else if code == 0xe1 {
        String::from_str("POP    H")
    } else if code == 0xe2 {
        String::from_str("JPO    $")
    } else if code == 0xe3 {
        String::from_str("XTHL")
    } else if code == 0xe4 {
        String::from_str("CPO    $")
    } else if code == 0xe5 {
        String::from_str("PUSH   H")
    } else if code == 0xe6 {
        String::from_str("ANI    #$")
    } else if code == 0xe7 {
        String::from_str("RST    4")
    } else if code == 0xe8 {
        String::from_str("RPE")
    } else if code == 0xe9 {
        String::from_str("PCHL")
    } else if code == 0xea {
        String::from_str("JPE    $")
    } else if code == 0xeb {
        String::from_str("XCHG")
    } else if code == 0xec {
        String::from_str("CPE    $")
    } else if code == 0xed {
        String::from_str("NOP")
    } else if code == 0xee {
        String::from_str("XRI    #$")
    } else if code == 0xef {
        String::from_str("RST    5")
    } else if code == 0xf0 {
        String::from_str("RP")
    } else if code == 0xf1 {
        String::from_str("POP    PSW")
    } else if code == 0xf2 {
        String::from_str("JP     $")
    } else if code == 0xf3 {
        String::from_str("DI")
    } else if code == 0xf4 {
        String::from_str("CP     $")
    } else if code == 0xf5 {
        String::from_str("PUSH   PSW")
    } else if code == 0xf6 {
        String::from_str("ORI    #$")
    } else if code == 0xf7 {
        String::from_str("RST    6")
    } else if code == 0xf8 {
        String::from_str("RM")
    } else if code == 0xf9 {
        String::from_str("SPHL")
    } else if code == 0xfa {
        String::from_str("JM     $")
    } else if code == 0xfb {
        String::from_str("EI")
    } else if code == 0xfc {
        String::from_str("CM     $")
    } else if code == 0xfd {
        String::from_str("NOP")
    } else if code == 0xfe {
        String::from_str("CPI    #$")
    } else {
        String::from_str("RST    7")
    }
}

/// The mnemonic text of any opcode, up to but not including the operand
/// digits that a 2- or 3-byte instruction appends.
pub open spec fn spec_opcode_text(op: u8) -> Seq<char> {
    if op < 0x40 {
        spec_text_low(op)
    } else if op == 0x76 {
        "HLT"@
    } else if op < 0x80 {
        "MOV    "@ + spec_reg_name((op / 8 - 8) as u8) + ","@ + spec_reg_name(op % 8)
    } else if op < 0xc0 {
        spec_family_name((op / 8 - 16) as u8) + spec_reg_name(op % 8)
    } else if op < 0xe0 {
        spec_text_cd(op)
    } else {
        spec_text_ef(op)
    }
}

/// The mnemonic text of an opcode byte.
pub fn opcode_text(code: u8) -> (r: String)
    ensures
        r@ == spec_opcode_text(code),
{
    if code < 0x40 {
        text_low(code)
    } else if code == 0x76 {
        String::from_str("HLT")
    } else if code < 0x80 {
        String::from_str("MOV    ").concat(reg_name(code / 8 - 8)).concat(",").concat(
            reg_name(code % 8),
        )
    } else if code < 0xc0 {
        String::from_str(family_name(code / 8 - 16)).concat(reg_name(code % 8))
    } else if code < 0xe0 {
        text_cd(code)
    } else {
        text_ef(code)
    }
}

/// The lower-case hexadecimal digit of a value below 16.
pub open spec fn spec_hex_digit(d: int) -> Seq<char> {
    if d == 0 {
        "0"@
    } else if d == 1 {
        "1"@
    } else if d == 2 {
        "2"@
    } else if d == 3 {
        "3"@
    } else if d == 4 {
        "4"@
    } else if d == 5 {
        "5"@
    } else if d == 6 {
        "6"@
    } else if d == 7 {
        "7"@
    } else if d == 8 {
        "8"@
    } else if d == 9 {
        "9"@
    } else if d == 10 {
        "a"@
    } else if d == 11 {
        "b"@
    } else if d == 12 {
        "c"@
    } else if d == 13 {
        "d"@
    } else if d == 14 {
        "e"@
    } else {
        "f"@
    }
}

fn hex_digit(d: u8) -> (r: &'static str)
    requires
        d < 16,
    ensures
        r@ == spec_hex_digit(d as int),
{
    if d == 0 {
        "0"
    } else if d == 1 {
        "1"
    } else if d == 2 {
        "2"
    } else if d == 3 {
        "3"
    } else if d == 4 {
        "4"
    } else if d == 5 {
        "5"
    } else if d == 6 {
        "6"
    } else if d == 7 {
        "7"
    } else if d == 8 {
        "8"
    } else if d == 9 {
        "9"
    } else if d == 10 {
        "a"
    } else if d == 11 {
        "b"
    } else if d == 12 {
        "c"
    } else if d == 13 {
        "d"
    } else if d == 14 {
        "e"
    } else {
        "f"
    }
}

/// A byte as two lower-case hexadecimal digits.
pub open spec fn spec_hex2(v: int) -> Seq<char> {
    spec_hex_digit(v / 16) + spec_hex_digit(v % 16)
}

/// Formats a byte as two lower-case hexadecimal digits.
pub fn hex2(v: u8) -> (r: String)
    ensures
        r@ == spec_hex2(v as int),
{
    String::from_str(hex_digit(v / 16)).concat(hex_digit(v % 16))
}

/// A 16-bit value as four lower-case hexadecimal digits.
pub open spec fn spec_hex4(v: int) -> Seq<char> {
    spec_hex_digit(v / 4096) + spec_hex_digit((v / 256) % 16) + spec_hex_digit((v / 16) % 16)
        + spec_hex_digit(v % 16)
}

/// Formats a 16-bit value as four lower-case hexadecimal digits.
pub fn hex4(v: u16) -> (r: String)
    ensures
        r@ == spec_hex4(v as int),
{
    String::from_str(hex_digit((v / 4096) as u8)).concat(hex_digit(((v / 256) % 16) as u8)).concat(
        hex_digit(((v / 16) % 16) as u8),
    ).concat(hex_digit((v % 16) as u8))
}

/// The full formatted line for the instruction at `pc`: the offset as four
/// hexadecimal digits, a space, the mnemonic, and the instruction's operand
/// bytes, high byte first for a 3-byte instruction.
pub open spec fn spec_disasm_line(mem: Seq<u8>, pc: int) -> Seq<char> {
    let op = mem[pc];
    let head = spec_hex4(pc) + " "@ + spec_opcode_text(op);
    if spec_op_len(op) == 3 {
        head + spec_hex2(mem[pc + 2] as int) + spec_hex2(mem[pc + 1] as int)
    } else if spec_op_len(op) == 2 {
        head + spec_hex2(mem[pc + 1] as int)
    } else {
        head
    }
}

/// Formats the instruction at byte offset `pc` of a full memory image and
/// returns the line together with the instruction's byte length.
pub fn disassemble_8080_op(buff: &Vec<u8>, pc: usize) -> (r: (String, usize))
    requires
        buff@.len() == MEMORY_SIZE,
        pc < MEMORY_SIZE,
        pc + spec_op_len(buff@[pc as int]) <= MEMORY_SIZE,
    ensures
        r.0@ == spec_disasm_line(buff@, pc as int),
        r.1 == spec_op_len(buff@[pc as int]),
{
    let code = buff[pc];
    let bytes_used = op_len(code);
    let mut result = hex4(pc as u16);
    result.append(" ");
    let text = opcode_text(code);
    result.append(text.as_str());
    if bytes_used == 3 {
        let upper = hex2(buff[pc + 2]);
        result.append(upper.as_str());
        let lower = hex2(buff[pc + 1]);
        result.append(lower.as_str());
    } else if bytes_used == 2 {
        let lower = hex2(buff[pc + 1]);
        result.append(lower.as_str());
    }
    proof {
        assert(result@ =~= spec_disasm_line(buff@, pc as int));
    }
    (result, bytes_used)
}

/// The modeled opcodes that transfer control rather than advance the
/// program counter past the instruction.
pub open spec fn spec_control_transfer(op: u8) -> bool {
    op == 0xc2 || op == 0xc3 || op == 0xc9 || op == 0xca || op == 0xcd || op == 0xd2 || op
        == 0xda || op == 0xe2 || op == 0xea
}

/// The disassembler's byte length agrees with the execution unit's operand
/// consumption: for every modeled opcode that is not a control transfer,
/// one execution step advances the program counter by exactly the length
/// this module reports for that opcode.
pub proof fn lemma_step_consumes_op_len(s: Model8080)
    requires
        s.wf(),
        spec_modeled(s.mem[s.pc as int]),
        !spec_control_transfer(s.mem[s.pc as int]),
    ensures
        spec_step(s).pc == wrap16(s.pc + spec_op_len(s.mem[s.pc as int])),
{
    let op = s.mem[s.pc as int];
    vstd::arithmetic::div_mod::lemma_add_mod_noop(s.pc + 1, 1, 0x10000);
    vstd::arithmetic::div_mod::lemma_add_mod_noop(s.pc + 1, 2, 0x10000);
}

/// A conditional jump whose predicate is false also consumes exactly the
/// reported instruction length: the two address bytes are skipped unread.
pub proof fn lemma_untaken_jump_consumes_op_len(s: Model8080)
    requires
        s.wf(),
        spec_control_transfer(s.mem[s.pc as int]),
        s.mem[s.pc as int] != 0xc3 && s.mem[s.pc as int] != 0xc9 && s.mem[s.pc as int] != 0xcd,
        !spec_jump_predicate(s.mem[s.pc as int], s),
    ensures
        spec_step(s).pc == wrap16(s.pc + spec_op_len(s.mem[s.pc as int])),
{
    vstd::arithmetic::div_mod::lemma_add_mod_noop(s.pc + 1, 2, 0x10000);
}

/// The predicate a conditional jump opcode tests.
pub open spec fn spec_jump_predicate(op: u8, s: Model8080) -> bool {
    if op == 0xc2 {
        !s.cc.z
    } else if op == 0xca {
        s.cc.z
    } else if op == 0xd2 {
        !s.cc.cy
    } else if op == 0xda {
        s.cc.cy
    } else if op == 0xe2 {
        !s.cc.p
    } else {
        s.cc.p
    }
}

} // verus!
