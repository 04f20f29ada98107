use gbcore::registers::CpuFlag;
use gbcore::registers::Registers;

#[test]
fn wide_registers() {
    let mut reg = Registers::new();
    reg.a = 0x12;
    reg.setf(0x23);
    reg.b = 0x34;
    reg.c = 0x45;
    reg.d = 0x56;
    reg.e = 0x67;
    reg.h = 0x78;
    reg.l = 0x89;
    assert_eq!(reg.af(), 0x1220);
    assert_eq!(reg.bc(), 0x3445);
    assert_eq!(reg.de(), 0x5667);
    assert_eq!(reg.hl(), 0x7889);

    reg.setaf(0x1111);
    reg.setbc(0x1111);
    reg.setde(0x1111);
    reg.sethl(0x1111);
    assert_eq!(reg.af(), 0x1110);
    assert_eq!(reg.bc(), 0x1111);
    assert_eq!(reg.de(), 0x1111);
    assert_eq!(reg.hl(), 0x1111);
}

#[test]
fn reset_values() {
    let reg = Registers::new();
    assert_eq!(reg.a, 0x00);
    assert_eq!(reg.f, 0x00);
    assert_eq!(reg.b, 0x70);
    assert_eq!(reg.c, 0x00);
    assert_eq!(reg.d, 0x00);
    assert_eq!(reg.e, 0x00);
    assert_eq!(reg.h, 0x00);
    assert_eq!(reg.l, 0x00);
    assert_eq!(reg.pc, 0x0000);
    assert_eq!(reg.sp, 0x0000);
}

#[test]
fn pair_roundtrip_full_range_samples() {
    let mut reg = Registers::new();
    for v in [0x0000u16, 0x0001, 0x00FF, 0x0100, 0x1234, 0x8000, 0xFFFE, 0xFFFF] {
        reg.setbc(v);
        assert_eq!(reg.bc(), v);
        reg.setde(v);
        assert_eq!(reg.de(), v);
        reg.sethl(v);
        assert_eq!(reg.hl(), v);
        reg.setaf(v);
        assert_eq!(reg.af(), v & 0xFFF0);
    }
}

#[test]
fn flag_set_and_get() {
    let mut reg = Registers::new();
    reg.flag(CpuFlag::Z, true);
    assert!(reg.getflag(CpuFlag::Z));
    assert_eq!(reg.f, 0x80);
    reg.flag(CpuFlag::C, true);
    assert!(reg.getflag(CpuFlag::C));
    assert_eq!(reg.f, 0x90);
    reg.flag(CpuFlag::Z, false);
    assert!(!reg.getflag(CpuFlag::Z));
    assert_eq!(reg.f, 0x10);
    assert!(!reg.getflag(CpuFlag::H));
    assert!(!reg.getflag(CpuFlag::N));
}

#[test]
fn flag_low_nibble_always_clear() {
    let mut reg = Registers::new();
    reg.f = 0xFF;
    reg.flag(CpuFlag::C, false);
    assert_eq!(reg.f, 0xE0);
    reg.f = 0x0F;
    reg.flag(CpuFlag::N, true);
    assert_eq!(reg.f, 0x40);
    reg.setf(0xFF);
    assert_eq!(reg.f, 0xF0);
    reg.setaf(0x12FF);
    assert_eq!(reg.f, 0xF0);
    assert_eq!(reg.f & 0x0F, 0);
}

#[test]
fn hl_increment_and_decrement() {
    let mut reg = Registers::new();
    reg.sethl(0x1234);
    assert_eq!(reg.hli(), 0x1234);
    assert_eq!(reg.hl(), 0x1235);
    assert_eq!(reg.hld(), 0x1235);
    assert_eq!(reg.hl(), 0x1234);
}

#[test]
fn hl_increment_and_decrement_wrap() {
    let mut reg = Registers::new();
    reg.sethl(0xFFFF);
    assert_eq!(reg.hli(), 0xFFFF);
    assert_eq!(reg.hl(), 0x0000);
    assert_eq!(reg.hld(), 0x0000);
    assert_eq!(reg.hl(), 0xFFFF);
}
