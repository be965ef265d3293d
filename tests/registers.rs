use i8080_emulator::registers::{is_even_parity, Flag, Registers};

#[test]
fn is_flag() {
    let x = 0x11;
    assert_eq!(Flag::is_flag(x, Flag::C), true);
}

#[test]
fn flag_or() {
    assert_eq!(Flag::C | Flag::A, 0x11);
}

#[test]
fn get_register_pair() {
    let mut regs = Registers::new();
    regs.a = 0xff;
    assert_eq!(regs.get_af(), 0xff02);
}

#[test]
fn set_register_pair() {
    let mut regs = Registers::new();
    regs.set_hl(0xff02);
    assert_eq!(regs.h, 0xff);
    assert_eq!(regs.l, 0x02);
}

#[test]
fn get_flag() {
    let mut regs = Registers::new();
    regs.f |= 0x80;
    assert_eq!(regs.get_flag(Flag::S), true);
}

#[test]
fn set_flag() {
    let mut regs = Registers::new();
    regs.set_flag(Flag::S, true);
    regs.set_flag(Flag::P, false);
    assert_eq!(regs.f, 0b1000_0010);
}

#[test]
fn update_flags_from() {
    let mut regs = Registers::new();
    let v: usize = 0x122;
    regs.update_flags_from(v, Flag::C | Flag::A);
    assert_eq!(regs.f, 0b0001_0011);
}

#[test]
fn bitor_flags() {
    assert_eq!(Flag::S | Flag::Z | Flag::A, 208);
}

#[test]
fn flag_masks() {
    assert_eq!(Flag::S.mask(), 0x80);
    assert_eq!(Flag::Z.mask(), 0x40);
    assert_eq!(Flag::A.mask(), 0x10);
    assert_eq!(Flag::P.mask(), 0x04);
    assert_eq!(Flag::C.mask(), 0x01);
}

#[test]
fn pairs_combine_high_then_low() {
    let mut regs = Registers::new();
    regs.set_bc(0x1234);
    regs.set_de(0x5678);
    regs.set_af(0x9abc);
    assert_eq!((regs.b, regs.c, regs.d, regs.e, regs.a, regs.f), (0x12, 0x34, 0x56, 0x78, 0x9a, 0xbc));
    assert_eq!(regs.get_bc(), 0x1234);
    assert_eq!(regs.get_de(), 0x5678);
    assert_eq!(regs.get_af(), 0x9abc);
}

#[test]
fn set_flag_clears_only_its_bit() {
    let mut regs = Registers::new();
    regs.f = 0xff;
    regs.set_flag(Flag::Z, false);
    assert_eq!(regs.f, 0xbf);
    assert_eq!(regs.get_flag(Flag::Z), false);
    assert_eq!(regs.get_flag(Flag::S), true);
}

#[test]
fn update_flags_from_sign_zero_parity() {
    let mut regs = Registers::new();
    regs.update_flags_from(0x100, Flag::S | Flag::Z | Flag::P);
    assert_eq!(regs.f, 0x46);
    regs.update_flags_from(0x81, Flag::S | Flag::Z | Flag::P);
    assert_eq!(regs.f, 0x86);
    regs.update_flags_from(0x01, Flag::S | Flag::Z | Flag::P);
    assert_eq!(regs.f, 0x02);
}

#[test]
fn parity_counts_one_bits() {
    assert!(is_even_parity(0x00));
    assert!(!is_even_parity(0x01));
    assert!(is_even_parity(0x03));
    assert!(!is_even_parity(0x07));
    assert!(is_even_parity(0xff));
    assert!(!is_even_parity(0x80));
}
