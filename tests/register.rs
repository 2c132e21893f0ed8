use rustygb::register::{Flag, Registers};

#[test]
fn word_register_test() {
    let mut reg = Registers::new();

    assert_eq!(reg.af(), 0x01B0);
    assert_eq!(reg.bc(), 0x0013);
    assert_eq!(reg.de(), 0x00D8);
    assert_eq!(reg.hl(), 0x014D);

    reg.set_af(0x2030);
    assert_eq!(reg.af(), 0x2030);
    assert_eq!(reg.a, 0x20);
    assert_eq!(reg.f, 0x30);

    reg.a = 0x40;
    reg.f = 0x50;
    assert_eq!(reg.af(), 0x4050);
}

#[test]
fn flag_register_test() {
    let mut reg = Registers::new();

    assert!(reg.zero());
    assert!(!reg.subtract());
    assert!(reg.half_carry());
    assert!(reg.carry());

    reg.set_flag(Flag::C, false);
    assert!(reg.zero());
    assert!(!reg.subtract());
    assert!(reg.half_carry());
    assert!(!reg.carry());
    assert_eq!(reg.f, 0xA0);
}

#[test]
fn set_af_masks_low_nibble_for_every_word() {
    let mut reg = Registers::new();
    for v in 0u32..=0xFFFF {
        let v = v as u16;
        reg.set_af(v);
        assert_eq!(reg.af(), v & 0xFFF0);
        assert_eq!(reg.f & 0x0F, 0);
    }
}

#[test]
fn pair_setters_split_high_and_low() {
    let mut reg = Registers::new();
    reg.set_bc(0xBEEF);
    reg.set_de(0x1234);
    reg.set_hl(0xC0DE);
    assert_eq!((reg.b, reg.c), (0xBE, 0xEF));
    assert_eq!((reg.d, reg.e), (0x12, 0x34));
    assert_eq!((reg.h, reg.l), (0xC0, 0xDE));
    assert_eq!(reg.bc(), 0xBEEF);
    assert_eq!(reg.de(), 0x1234);
    assert_eq!(reg.hl(), 0xC0DE);
}

#[test]
fn set_flag_sets_and_clears_each_bit() {
    let mut reg = Registers::new();
    reg.f = 0;
    reg.set_flag(Flag::S, true);
    assert_eq!(reg.f, 0x40);
    reg.set_flag(Flag::H, true);
    assert_eq!(reg.f, 0x60);
    reg.set_flag(Flag::S, false);
    assert_eq!(reg.f, 0x20);
    reg.set_flags(true, false, false, true);
    assert_eq!(reg.f, 0x90);
}
