use rusty8080::disassembler::disassemble_8080_op;
use rusty8080::disassembler::op_len;

fn image() -> Vec<u8> {
    vec![0u8; 0x10000]
}

#[test]
fn test_disassemble_nop() {
    let buff = image();
    let (line, bytes_used) = disassemble_8080_op(&buff, 0);
    assert_eq!(line, "0000 NOP");
    assert_eq!(bytes_used, 1);
}

#[test]
fn test_disassemble_lxi() {
    let mut buff = image();
    buff[0x10] = 0x01;
    buff[0x11] = 0x34;
    buff[0x12] = 0x12;
    let (line, bytes_used) = disassemble_8080_op(&buff, 0x10);
    assert_eq!(line, "0010 LXI    B,#$1234");
    assert_eq!(bytes_used, 3);
}

#[test]
fn test_disassemble_mvi() {
    let mut buff = image();
    buff[0] = 0x3e;
    buff[1] = 0x7f;
    let (line, bytes_used) = disassemble_8080_op(&buff, 0);
    assert_eq!(line, "0000 MVI    A,#$7f");
    assert_eq!(bytes_used, 2);
}

#[test]
fn test_disassemble_mov_and_arith() {
    let mut buff = image();
    buff[0] = 0x41;
    buff[1] = 0x7e;
    buff[2] = 0x86;
    buff[3] = 0xbb;
    let (line, bytes_used) = disassemble_8080_op(&buff, 0);
    assert_eq!(line, "0000 MOV    B,C");
    assert_eq!(bytes_used, 1);
    let (line, _) = disassemble_8080_op(&buff, 1);
    assert_eq!(line, "0001 MOV    A,M");
    let (line, _) = disassemble_8080_op(&buff, 2);
    assert_eq!(line, "0002 ADD    M");
    let (line, _) = disassemble_8080_op(&buff, 3);
    assert_eq!(line, "0003 CMP    E");
}

#[test]
fn test_disassemble_call_and_jmp() {
    let mut buff = image();
    buff[0x200] = 0xcd;
    buff[0x201] = 0x11;
    buff[0x202] = 0x22;
    buff[0x203] = 0xc3;
    buff[0x204] = 0xcd;
    buff[0x205] = 0xab;
    let (line, bytes_used) = disassemble_8080_op(&buff, 0x200);
    assert_eq!(line, "0200 CALL   $2211");
    assert_eq!(bytes_used, 3);
    let (line, bytes_used) = disassemble_8080_op(&buff, 0x203);
    assert_eq!(line, "0203 JMP    $abcd");
    assert_eq!(bytes_used, 3);
}

#[test]
fn test_disassemble_immediates_and_stack() {
    let mut buff = image();
    buff[0] = 0xfe;
    buff[1] = 0xfe;
    buff[2] = 0xc5;
    buff[3] = 0xf1;
    buff[4] = 0x22;
    buff[5] = 0xcd;
    buff[6] = 0xab;
    let (line, bytes_used) = disassemble_8080_op(&buff, 0);
    assert_eq!(line, "0000 CPI    #$fe");
    assert_eq!(bytes_used, 2);
    let (line, bytes_used) = disassemble_8080_op(&buff, 2);
    assert_eq!(line, "0002 PUSH   B");
    assert_eq!(bytes_used, 1);
    let (line, _) = disassemble_8080_op(&buff, 3);
    assert_eq!(line, "0003 POP    PSW");
    let (line, bytes_used) = disassemble_8080_op(&buff, 4);
    assert_eq!(line, "0004 SHLD   $abcd");
    assert_eq!(bytes_used, 3);
}

#[test]
fn test_op_len_table() {
    // one byte: plain register and stack operations
    assert_eq!(op_len(0x00), 1);
    assert_eq!(op_len(0x41), 1);
    assert_eq!(op_len(0x87), 1);
    assert_eq!(op_len(0xc9), 1);
    assert_eq!(op_len(0xe3), 1);
    // two bytes: immediate operands and the port instructions
    assert_eq!(op_len(0x06), 2);
    assert_eq!(op_len(0x36), 2);
    assert_eq!(op_len(0xc6), 2);
    assert_eq!(op_len(0xd3), 2);
    assert_eq!(op_len(0xdb), 2);
    assert_eq!(op_len(0xfe), 2);
    // three bytes: address operands
    assert_eq!(op_len(0x01), 3);
    assert_eq!(op_len(0x22), 3);
    assert_eq!(op_len(0x3a), 3);
    assert_eq!(op_len(0xc3), 3);
    assert_eq!(op_len(0xcd), 3);
    assert_eq!(op_len(0xfa), 3);
}

#[test]
fn test_length_agrees_with_execution() {
    // stepping a straight-line instruction advances the program counter by
    // exactly the length the disassembler reports for it
    let programs: Vec<Vec<u8>> = vec![
        vec![0x00],
        vec![0x3c],
        vec![0x06, 0x12],
        vec![0x36, 0x34],
        vec![0x01, 0x11, 0x22],
        vec![0x22, 0x11, 0x22],
        vec![0x3a, 0x11, 0x22],
        vec![0x78],
        vec![0x86],
    ];
    for program in programs {
        let buff_len = program.len();
        let mut padded = program.clone();
        padded.resize(0x10000, 0);
        let (_, reported) = disassemble_8080_op(&padded, 0);
        assert_eq!(reported, buff_len);
        let mut state = rusty8080::emulator::State8080::new(padded);
        state.emulate_op();
        assert_eq!(state.pc as usize, reported);
    }
}
