use gbcore::cpu::CPU;
use gbcore::cpu::implemented;
use gbcore::registers::CpuFlag;

#[test]
fn add_b_to_a() {
    let mut cpu = CPU::new();
    cpu.reg.a = 0x3A;
    cpu.reg.b = 0xC6;
    let _cycle = cpu.call(0x80);
    assert_eq!(cpu.reg.a, 0);
    assert_eq!(cpu.reg.f, 0b10110000)
}

#[test]
fn add_immediate_to_a() {
    let mut cpu = CPU::new();
    cpu.mmu.memory[0] = 0xFF;
    cpu.reg.a = 0x3C;
    let _cycle = cpu.call(0xC6);
    assert_eq!(cpu.reg.a, 0x3B);
    assert_eq!(cpu.reg.f, 0b00110000);
}

#[test]
fn bit16_add() {
    let mut cpu = CPU::new();
    cpu.reg.setbc(0x0605);
    cpu.reg.sethl(0x8A23);
    let _cycle = cpu.call(0x09);
    assert_eq!(cpu.reg.hl(), 0x9028);
    assert_eq!(cpu.reg.f, 0b00100000);

    cpu.reg.sp = 0xFFFF;
    cpu.mmu.memory[0] = 2;
    let _cycle = cpu.call(0xE8);
    assert_eq!(cpu.reg.sp, 0x0001);
    assert_eq!(cpu.reg.f, 0b00110000);
}

#[test]
fn alu_add_flags_exact() {
    // Half-carry alone: 0x0F + 0x01 crosses the nibble boundary only.
    let mut cpu = CPU::new();
    cpu.reg.a = 0x0F;
    cpu.alu_add(0x01, false);
    assert_eq!(cpu.reg.a, 0x10);
    assert_eq!(cpu.reg.f, 0b00100000);

    // No flag: 0x10 + 0x22 crosses no boundary and is not zero.
    cpu.reg.a = 0x10;
    cpu.alu_add(0x22, false);
    assert_eq!(cpu.reg.a, 0x32);
    assert_eq!(cpu.reg.f, 0b00000000);

    // Carry alone: 0xF0 + 0x20 overflows the byte, not the nibble.
    cpu.reg.a = 0xF0;
    cpu.alu_add(0x20, false);
    assert_eq!(cpu.reg.a, 0x10);
    assert_eq!(cpu.reg.f, 0b00010000);
}

#[test]
fn alu_add_with_carry_in() {
    // Carry flag set and the variant uses it: 0xFF + 0x00 + 1 wraps to
    // zero and sets Zero, Half-Carry and Carry.
    let mut cpu = CPU::new();
    cpu.reg.a = 0xFF;
    cpu.reg.flag(CpuFlag::C, true);
    cpu.alu_add(0x00, true);
    assert_eq!(cpu.reg.a, 0x00);
    assert_eq!(cpu.reg.f, 0b10110000);

    // Carry flag set but the plain variant ignores it.
    let mut cpu = CPU::new();
    cpu.reg.a = 0x01;
    cpu.reg.flag(CpuFlag::C, true);
    cpu.alu_add(0x01, false);
    assert_eq!(cpu.reg.a, 0x02);
    assert_eq!(cpu.reg.f, 0b00000000);

    // Carry flag clear: the carry variant adds nothing extra.
    let mut cpu = CPU::new();
    cpu.reg.a = 0x01;
    cpu.reg.b = 0x02;
    let cycle = cpu.call(0x88);
    assert_eq!(cycle, 1);
    assert_eq!(cpu.reg.a, 0x03);
    assert_eq!(cpu.reg.f, 0b00000000);
}

#[test]
fn add16_preserves_zero_flag() {
    // Zero set before the 16-bit add stays set, whatever the result.
    let mut cpu = CPU::new();
    cpu.reg.flag(CpuFlag::Z, true);
    cpu.reg.sethl(0x0001);
    let _cycle = cpu.call(0x29);
    assert_eq!(cpu.reg.hl(), 0x0002);
    assert_eq!(cpu.reg.f, 0b10000000);

    // Zero clear before the add stays clear, even on a wrapped-to-zero
    // result.
    let mut cpu = CPU::new();
    cpu.reg.sethl(0x8000);
    let _cycle = cpu.call(0x29);
    assert_eq!(cpu.reg.hl(), 0x0000);
    assert_eq!(cpu.reg.f, 0b00010000);
}

#[test]
fn add16imm_clears_zero_and_subtract() {
    // Zero and Subtract set beforehand are both cleared, and a zero
    // result does not set Zero back.
    let mut cpu = CPU::new();
    cpu.reg.setf(0b11000000);
    cpu.reg.sp = 0x0000;
    let _cycle = cpu.call(0xE8);
    assert_eq!(cpu.reg.sp, 0x0000);
    assert_eq!(cpu.reg.f, 0b00000000);

    // The displacement byte is read as unsigned for the flag boundaries:
    // low-nibble and low-byte overflow of 0x00FF + 0x01.
    let mut cpu = CPU::new();
    cpu.reg.sp = 0x00FF;
    cpu.mmu.memory[0] = 0x01;
    let _cycle = cpu.call(0xE8);
    assert_eq!(cpu.reg.sp, 0x0100);
    assert_eq!(cpu.reg.f, 0b00110000);
}

#[test]
fn add_memory_at_hl() {
    let mut cpu = CPU::new();
    cpu.reg.sethl(0x0100);
    cpu.mmu.memory[0x0100] = 0x05;
    cpu.reg.a = 0x01;
    let cycle = cpu.call(0x86);
    assert_eq!(cycle, 2);
    assert_eq!(cpu.reg.a, 0x06);
    assert_eq!(cpu.reg.f, 0b00000000);
    assert_eq!(cpu.reg.pc, 0x0000);
}

#[test]
fn immediate_add_advances_pc() {
    let mut cpu = CPU::new();
    cpu.mmu.memory[0] = 0x01;
    cpu.mmu.memory[1] = 0x02;
    let _cycle = cpu.call(0xC6);
    assert_eq!(cpu.reg.a, 0x01);
    assert_eq!(cpu.reg.pc, 0x0001);
    let _cycle = cpu.call(0xCE);
    assert_eq!(cpu.reg.a, 0x03);
    assert_eq!(cpu.reg.pc, 0x0002);
}

#[test]
fn cycle_counts_by_opcode_class() {
    let mut cpu = CPU::new();
    assert_eq!(cpu.call(0x80), 1);
    assert_eq!(cpu.call(0x87), 1);
    assert_eq!(cpu.call(0x8F), 1);
    assert_eq!(cpu.call(0x86), 2);
    assert_eq!(cpu.call(0x8E), 2);
    assert_eq!(cpu.call(0xC6), 2);
    assert_eq!(cpu.call(0xCE), 2);
    assert_eq!(cpu.call(0x09), 2);
    assert_eq!(cpu.call(0x19), 2);
    assert_eq!(cpu.call(0x29), 2);
    assert_eq!(cpu.call(0x39), 2);
    assert_eq!(cpu.call(0xE8), 4);
}

#[test]
fn implemented_opcode_table() {
    let known: [u8; 22] = [
        0x09, 0x19, 0x29, 0x39, 0x80, 0x81, 0x82, 0x83, 0x84, 0x85, 0x86, 0x87, 0x88, 0x89, 0x8A,
        0x8B, 0x8C, 0x8D, 0x8E, 0x8F, 0xC6, 0xCE,
    ];
    for op in known {
        assert!(implemented(op));
    }
    assert!(implemented(0xE8));
    assert!(!implemented(0x00));
    assert!(!implemented(0x7F));
    assert!(!implemented(0x90));
    assert!(!implemented(0xFF));
}
