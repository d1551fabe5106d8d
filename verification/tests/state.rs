use rusty8080::emulator::State8080;
use rusty8080::emulator::test_utils::setup_state;

#[test]
fn test_shld() {
    let mut state = setup_state();
    state.memory[0] = 0x22; // SHLD op code
    state.memory[1] = 0x11; // Lower part of address
    state.memory[2] = 0x33; // Upper part of address
    state.h = 0xaa;
    state.l = 0xbb;
    state.emulate_op();
    assert_eq!(state.memory[0x3311], 0xbb);
    assert_eq!(state.memory[0x3312], 0xaa);
}

#[test]
fn test_cma() {
    let mut state = setup_state();
    state.memory[0] = 0x2f; // CMA op code
    state.a = 0b01010001;
    state.emulate_op();
    assert_eq!(state.a, 0b10101110);
}

#[test]
fn test_dcx_sp() {
    let mut state = setup_state();
    state.memory[0] = 0x3b; // DCX SP op code
    state.sp = 0xabcd;
    state.emulate_op();
    assert_eq!(state.sp, 0xabcc);
}

#[test]
fn test_move() {
    let mut state = setup_state();
    state.memory[0] = 0x41; // MOV B, C op code
    state.memory[1] = 0x4a; // MOV C, D op code
    state.b = 0x0b;
    state.c = 0x0c;
    state.d = 0x0d;
    state.emulate_op();
    assert_eq!(state.b, 0xc);
    assert_eq!(state.c, 0xc);
    state.emulate_op();
    assert_eq!(state.c, 0xd);
    assert_eq!(state.d, 0xd);
}

#[test]
fn test_new_pads_and_truncates() {
    let image = vec![0xc3, 0x11, 0x22];
    let state = State8080::new(image);
    assert_eq!(state.memory.len(), 0x10000);
    assert_eq!(state.memory[0], 0xc3);
    assert_eq!(state.memory[1], 0x11);
    assert_eq!(state.memory[2], 0x22);
    assert_eq!(state.memory[3], 0);
    assert_eq!(state.memory[0xffff], 0);
    assert_eq!(state.pc, 0);
    assert_eq!(state.sp, 0xf000);
    assert_eq!(state.a, 0);
    assert!(!state.cc.z && !state.cc.s && !state.cc.p && !state.cc.cy);
    assert!(!state.int_enable);
}

#[test]
fn test_lxi_and_mvi() {
    let mut state = setup_state();
    state.memory[0] = 0x01; // LXI B
    state.memory[1] = 0xcd;
    state.memory[2] = 0xab;
    state.memory[3] = 0x31; // LXI SP
    state.memory[4] = 0x67;
    state.memory[5] = 0x45;
    state.memory[6] = 0x3e; // MVI A
    state.memory[7] = 0x7f;
    state.emulate_op();
    assert_eq!(state.b, 0xab);
    assert_eq!(state.c, 0xcd);
    state.emulate_op();
    assert_eq!(state.sp, 0x4567);
    state.emulate_op();
    assert_eq!(state.a, 0x7f);
    assert_eq!(state.pc, 8);
}

#[test]
fn test_mvi_m() {
    let mut state = setup_state();
    state.memory[0] = 0x36; // MVI M
    state.memory[1] = 0x5a;
    state.h = 0x20;
    state.l = 0x01;
    state.emulate_op();
    assert_eq!(state.memory[0x2001], 0x5a);
    assert_eq!(state.pc, 2);
}

#[test]
fn test_sta_and_lda() {
    let mut state = setup_state();
    state.memory[0] = 0x32; // STA: store the accumulator at 0x3311
    state.memory[1] = 0x11;
    state.memory[2] = 0x33;
    state.memory[3] = 0x3e; // MVI A, 0: scrub the accumulator
    state.memory[4] = 0x00;
    state.memory[5] = 0x3a; // LDA: load it back from 0x3311
    state.memory[6] = 0x11;
    state.memory[7] = 0x33;
    state.a = 0x5a;
    state.emulate_op();
    assert_eq!(state.memory[0x3311], 0x5a);
    assert_eq!(state.pc, 3);
    state.emulate_op();
    assert_eq!(state.a, 0);
    state.emulate_op();
    assert_eq!(state.a, 0x5a);
    assert_eq!(state.pc, 8);
}

#[test]
fn test_stax_and_ldax() {
    let mut state = setup_state();
    state.memory[0] = 0x02; // STAX B
    state.memory[1] = 0x1a; // LDAX D
    state.a = 0x99;
    state.b = 0x12;
    state.c = 0x34;
    state.d = 0x20;
    state.e = 0x02;
    state.memory[0x2002] = 0x77;
    state.emulate_op();
    assert_eq!(state.memory[0x1234], 0x99);
    state.emulate_op();
    assert_eq!(state.a, 0x77);
}

#[test]
fn test_lhld() {
    let mut state = setup_state();
    state.memory[0] = 0x2a; // LHLD
    state.memory[1] = 0x11;
    state.memory[2] = 0x33;
    state.memory[0x3311] = 0xbb;
    state.memory[0x3312] = 0xaa;
    state.emulate_op();
    assert_eq!(state.l, 0xbb);
    assert_eq!(state.h, 0xaa);
    assert_eq!(state.pc, 3);
}

#[test]
fn test_add_m_and_adc_m() {
    let mut state = setup_state();
    state.memory[0] = 0x86; // ADD M
    state.memory[1] = 0x8e; // ADC M
    state.h = 0x10;
    state.l = 0x00;
    state.memory[0x1000] = 200;
    state.a = 100;
    state.emulate_op();
    // 100 + 200 = 300, truncated to 44 with a carry out
    assert_eq!(state.a, 44);
    assert_eq!(state.cc.cy, true);
    state.emulate_op();
    // 44 + 200 + 1 = 245: ADC folds the carry in
    assert_eq!(state.a, 245);
    assert_eq!(state.cc.cy, false);
}

#[test]
fn test_inx_sp_wraps() {
    let mut state = setup_state();
    state.memory[0] = 0x33; // INX SP
    state.sp = 0xffff;
    state.emulate_op();
    assert_eq!(state.sp, 0);
}

#[test]
fn test_stc_and_cmc() {
    let mut state = setup_state();
    state.memory[0] = 0x37; // STC
    state.memory[1] = 0x3f; // CMC
    state.memory[2] = 0x3f; // CMC
    state.emulate_op();
    assert_eq!(state.cc.cy, true);
    state.emulate_op();
    assert_eq!(state.cc.cy, false);
    state.emulate_op();
    assert_eq!(state.cc.cy, true);
}

#[test]
fn test_ei_and_di() {
    let mut state = setup_state();
    state.memory[0] = 0xfb; // EI
    state.memory[1] = 0xf3; // DI
    assert!(!state.int_enable);
    state.emulate_op();
    assert!(state.int_enable);
    state.emulate_op();
    assert!(!state.int_enable);
    assert_eq!(state.pc, 2);
}

#[test]
fn test_unimplemented_opcode_is_reported() {
    let mut state = setup_state();
    state.memory[0] = 0x90; // SUB B: outside the modeled subset
    state.a = 0x55;
    state.b = 0x11;
    let report = state.emulate_op();
    // the byte is consumed and reported; nothing else changes
    assert_eq!(report, Some(0x90));
    assert_eq!(state.pc, 1);
    assert_eq!(state.a, 0x55);
    assert_eq!(state.b, 0x11);

    state.memory[1] = 0x00; // NOP is modeled: no report
    let report = state.emulate_op();
    assert_eq!(report, None);
    assert_eq!(state.pc, 2);
}

#[test]
fn test_hlt_consumes_one_byte() {
    let mut state = setup_state();
    state.memory[0] = 0x76; // HLT
    state.a = 0x42;
    let report = state.emulate_op();
    assert_eq!(report, None);
    assert_eq!(state.pc, 1);
    assert_eq!(state.a, 0x42);
}

#[test]
fn test_mov_m_and_mov_from_m() {
    let mut state = setup_state();
    state.memory[0] = 0x77; // MOV M, A
    state.memory[1] = 0x46; // MOV B, M
    state.h = 0x21;
    state.l = 0x05;
    state.a = 0x66;
    state.emulate_op();
    assert_eq!(state.memory[0x2105], 0x66);
    state.emulate_op();
    assert_eq!(state.b, 0x66);
}
