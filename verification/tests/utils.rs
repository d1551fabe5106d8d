use rusty8080::emulator::ConditionCodes;
use rusty8080::emulator::utils::combine;
use rusty8080::emulator::utils::parity;
use rusty8080::emulator::utils::split;
use rusty8080::emulator::utils::update_flags;

#[test]
fn utils_test_parity() {
    assert_eq!(true, parity(0b0000, 4));
    assert_eq!(true, parity(0b00000, 5));
    assert_eq!(false, parity(0b00001, 5));
    assert_eq!(false, parity(0b10000, 5));
    assert_eq!(false, parity(0b01000, 5));
    assert_eq!(true, parity(0b01000100, 8));
    assert_eq!(true, parity(0b0100000, 2));
    assert_eq!(true, parity(0b011111111, 8));
    assert_eq!(true, parity(0xff, 8));
}

#[test]
fn test_combine_and_split() {
    let upper1 = 0xab as u8;
    let lower1 = 0xcd as u8;
    let combined = combine(upper1, lower1);
    assert_eq!(combined, 0xabcd);
    let (upper2, lower2) = split(combined);
    assert_eq!(upper2, 0xab);
    assert_eq!(lower2, 0xcd);
}

#[test]
fn test_update_flags_values() {
    let mut codes = ConditionCodes {
        z: false,
        s: false,
        p: false,
        cy: false,
        ac: false,
        pad: false,
    };
    update_flags(0, &mut codes);
    assert!(codes.z && !codes.s && codes.p && !codes.cy);

    // 0x194 = 404: the low byte 0x94 has three set bits and bit 7 set
    update_flags(0x194, &mut codes);
    assert!(!codes.z && codes.s && !codes.p && codes.cy);

    // 0x100: a carry out whose low byte is zero
    update_flags(0x100, &mut codes);
    assert!(codes.z && !codes.s && codes.p && codes.cy);
}
