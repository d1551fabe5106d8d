use rusty8080::emulator::test_utils::setup_state;

#[test]
fn test_rlc_with_carry() {
    let mut state = setup_state();
    state.memory[0] = 0x07; // RLC op code
    state.a = 0b11110010;
    state.cc.cy = false;

    state.emulate_op();

    assert_eq!(state.a, 0b11100101);
    assert_eq!(state.cc.cy, true);
}

#[test]
fn test_rlc_without_carry() {
    let mut state = setup_state();
    state.memory[0] = 0x07; // RLC op code
    state.a = 0b01110010;
    state.cc.cy = true;

    state.emulate_op();

    assert_eq!(state.a, 0b11100100);
    assert_eq!(state.cc.cy, false);
}

#[test]
fn test_rrc_without_carry() {
    let mut state = setup_state();
    state.memory[0] = 0x0f; // RRC op code
    state.a = 0b11110010;
    state.cc.cy = true;

    state.emulate_op();

    assert_eq!(state.a, 0b01111001);
    assert_eq!(state.cc.cy, false);
}

#[test]
fn test_rrc_with_carry() {
    let mut state = setup_state();
    state.memory[0] = 0x0f; // RRC op code
    state.a = 0b11110011;
    state.cc.cy = false;

    state.emulate_op();

    assert_eq!(state.a, 0b11111001);
    assert_eq!(state.cc.cy, true);
}

#[test]
fn test_ral_with_carry() {
    let mut state = setup_state();
    state.memory[0] = 0x17; // RAL op code
    state.a = 0b10110101;
    state.cc.cy = false;

    state.emulate_op();

    assert_eq!(state.a, 0b01101010);
    assert_eq!(state.cc.cy, true);
}

#[test]
fn test_ral_without_carry() {
    let mut state = setup_state();
    state.memory[0] = 0x17; // RAL op code
    state.a = 0b00110101;
    state.cc.cy = true;

    state.emulate_op();

    assert_eq!(state.a, 0b01101011);
    assert_eq!(state.cc.cy, false);
}

#[test]
fn test_rar_with_carry() {
    let mut state = setup_state();
    state.memory[0] = 0x1f; // RAR op code
    state.a = 0b01101010;
    state.cc.cy = true;

    state.emulate_op();

    assert_eq!(state.a, 0b10110101);
    assert_eq!(state.cc.cy, false);
}

#[test]
fn test_rar_without_carry() {
    let mut state = setup_state();
    state.memory[0] = 0x1f; // RAR op code
    state.a = 0b01101011;
    state.cc.cy = false;

    state.emulate_op();

    assert_eq!(state.a, 0b00110101);
    assert_eq!(state.cc.cy, true);
}

#[test]
fn test_circular_and_through_carry_differ() {
    // The circular rotate refills from the bit that fell off; the
    // through-carry rotate refills from the previous Carry.  From the same
    // start the two produce different accumulators.
    let mut circular = setup_state();
    circular.memory[0] = 0x07; // RLC
    circular.a = 0b10110101;
    circular.cc.cy = false;
    circular.emulate_op();
    assert_eq!(circular.a, 0b01101011);
    assert_eq!(circular.cc.cy, true);

    let mut through = setup_state();
    through.memory[0] = 0x17; // RAL
    through.a = 0b10110101;
    through.cc.cy = false;
    through.emulate_op();
    assert_eq!(through.a, 0b01101010);
    assert_eq!(through.cc.cy, true);
}
