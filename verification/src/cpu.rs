//! The CPU: register file plus memory, the addition routines of the
//! arithmetic-logic unit, and the opcode dispatcher.
//!
//! Each ALU routine computes its result and the four flag values from the
//! current register state and commits both; the dispatcher maps an opcode
//! byte to the matching routine, fetches any operand byte it needs, and
//! returns the fixed cycle count of that opcode.

use vstd::prelude::*;

use crate::mmu::MMU;
use crate::registers::CpuFlag;
use crate::registers::Registers;
use crate::registers::flag_mask;
use crate::registers::flag_written;
use crate::registers::high_byte;
use crate::registers::low_byte;
use crate::registers::low_nibble_clear;
use crate::registers::pair_val;
use crate::registers::reset_state;
use crate::registers::word_add;
use crate::registers::word_inc;

verus! {

/// The four flags packed into the high nibble of a flag byte: Zero,
/// Subtract, Half-Carry, Carry from bit 7 down to bit 4.
pub open spec fn pack_flags(z: bool, n: bool, h: bool, c: bool) -> u8 {
    (if z {
        0x80u8
    } else {
        0u8
    }) | (if n {
        0x40u8
    } else {
        0u8
    }) | (if h {
        0x20u8
    } else {
        0u8
    }) | (if c {
        0x10u8
    } else {
        0u8
    })
}

/// The carry-in of an 8-bit add: one exactly when the variant uses the
/// carry and the Carry flag is currently set in the given flag byte.
pub open spec fn carry_in(f: u8, usec: bool) -> u8 {
    if usec && f & flag_mask(CpuFlag::C) != 0 {
        1
    } else {
        0
    }
}

/// 8-bit addition wrapped modulo 256.
pub open spec fn add8_result(a: u8, b: u8, cin: u8) -> u8 {
    ((a + b + cin) % 256) as u8
}

/// Half-Carry of an 8-bit add: overflow out of the low nibble, computed
/// before wrapping.
pub open spec fn add8_half(a: u8, b: u8, cin: u8) -> bool {
    (a & 0xF) + (b & 0xF) + cin > 0xF
}

/// Carry of an 8-bit add: overflow out of the byte.
pub open spec fn add8_carry(a: u8, b: u8, cin: u8) -> bool {
    a + b + cin > 0xFF
}

/// The whole flag byte after an 8-bit add: Zero from the wrapped result,
/// Subtract cleared, Half-Carry and Carry from the widened sum.
pub open spec fn add8_flags(a: u8, b: u8, cin: u8) -> u8 {
    pack_flags(add8_result(a, b, cin) == 0, false, add8_half(a, b, cin), add8_carry(a, b, cin))
}

/// Half-Carry of a 16-bit add: overflow out of bit 11, the nibble
/// boundary for word arithmetic.
pub open spec fn add16_half(hl: u16, n: u16) -> bool {
    (hl & 0x07FF) + (n & 0x07FF) > 0x07FF
}

/// Carry of a 16-bit add: overflow out of the word.
pub open spec fn add16_carry(hl: u16, n: u16) -> bool {
    hl + n > 0xFFFF
}

/// The flag byte after a 16-bit add into HL: Zero kept from the previous
/// byte, Subtract cleared, Half-Carry and Carry from the sum.
pub open spec fn add16_flags(f: u8, hl: u16, n: u16) -> u8 {
    (f & flag_mask(CpuFlag::Z)) | pack_flags(false, false, add16_half(hl, n), add16_carry(hl, n))
}

/// Half-Carry of the stack-pointer signed-immediate add: the displacement
/// byte is treated as unsigned, and the boundary is the low nibble.
pub open spec fn add16imm_half(base: u16, b: u16) -> bool {
    (base & 0x000F) + (b & 0x000F) > 0x000F
}

/// Carry of the stack-pointer signed-immediate add: the displacement byte
/// is treated as unsigned, and the boundary is the low byte.
pub open spec fn add16imm_carry(base: u16, b: u16) -> bool {
    (base & 0x00FF) + (b & 0x00FF) > 0x00FF
}

/// The flag byte after the stack-pointer signed-immediate add: Zero and
/// Subtract both cleared, never computed from the result.
pub open spec fn add16imm_flags(base: u16, b: u16) -> u8 {
    pack_flags(false, false, add16imm_half(base, b), add16imm_carry(base, b))
}

/// Reading each flag bit out of a packed flag byte gives back the
/// booleans that were packed, and the reserved low nibble is clear.
pub proof fn lemma_pack_flag_bits(z: bool, n: bool, h: bool, c: bool)
    ensures
        (pack_flags(z, n, h, c) & flag_mask(CpuFlag::Z) != 0) == z,
        (pack_flags(z, n, h, c) & flag_mask(CpuFlag::N) != 0) == n,
        (pack_flags(z, n, h, c) & flag_mask(CpuFlag::H) != 0) == h,
        (pack_flags(z, n, h, c) & flag_mask(CpuFlag::C) != 0) == c,
        low_nibble_clear(pack_flags(z, n, h, c)),
{
    let pf = pack_flags(z, n, h, c);
    assert((pf & 0x80u8 != 0) == z && (pf & 0x40u8 != 0) == n && (pf & 0x20u8 != 0) == h && (pf
        & 0x10u8 != 0) == c && pf & 0x0Fu8 == 0) by (bit_vector)
        requires
            pf == (if z {
                0x80u8
            } else {
                0u8
            }) | (if n {
                0x40u8
            } else {
                0u8
            }) | (if h {
                0x20u8
            } else {
                0u8
            }) | (if c {
                0x10u8
            } else {
                0u8
            }),
    ;
}

/// Writing Zero, Subtract, Half-Carry and Carry in that order, starting
/// from any flag byte, leaves exactly the packed flag byte.
pub proof fn lemma_flags_znhc(f0: u8, z: bool, h: bool, c: bool)
    ensures
        flag_written(
            flag_written(flag_written(flag_written(f0, CpuFlag::Z, z), CpuFlag::N, false), CpuFlag::H, h),
            CpuFlag::C,
            c,
        ) == pack_flags(z, false, h, c),
{
    let f1 = flag_written(f0, CpuFlag::Z, z);
    let f2 = flag_written(f1, CpuFlag::N, false);
    let f3 = flag_written(f2, CpuFlag::H, h);
    let f4 = flag_written(f3, CpuFlag::C, c);
    let pf = pack_flags(z, false, h, c);
    assert(f4 == pf) by (bit_vector)
        requires
            f1 == (if z {
                (f0 | 0x80u8) & 0xF0
            } else {
                (f0 & !0x80u8) & 0xF0
            }),
            f2 == ((f1 & !0x40u8) & 0xF0),
            f3 == (if h {
                (f2 | 0x20u8) & 0xF0
            } else {
                (f2 & !0x20u8) & 0xF0
            }),
            f4 == (if c {
                (f3 | 0x10u8) & 0xF0
            } else {
                (f3 & !0x10u8) & 0xF0
            }),
            pf == (if z {
                0x80u8
            } else {
                0u8
            }) | 0u8 | (if h {
                0x20u8
            } else {
                0u8
            }) | (if c {
                0x10u8
            } else {
                0u8
            }),
    ;
}

/// Writing Half-Carry, Subtract and Carry in that order keeps the Zero
/// bit of the starting flag byte and packs the other three.
pub proof fn lemma_flags_hnc(f0: u8, h: bool, c: bool)
    ensures
        flag_written(flag_written(flag_written(f0, CpuFlag::H, h), CpuFlag::N, false), CpuFlag::C, c)
            == ((f0 & flag_mask(CpuFlag::Z)) | pack_flags(false, false, h, c)),
{
    let f1 = flag_written(f0, CpuFlag::H, h);
    let f2 = flag_written(f1, CpuFlag::N, false);
    let f3 = flag_written(f2, CpuFlag::C, c);
    let pf = pack_flags(false, false, h, c);
    assert(f3 == (f0 & 0x80u8) | pf) by (bit_vector)
        requires
            f1 == (if h {
                (f0 | 0x20u8) & 0xF0
            } else {
                (f0 & !0x20u8) & 0xF0
            }),
            f2 == ((f1 & !0x40u8) & 0xF0),
            f3 == (if c {
                (f2 | 0x10u8) & 0xF0
            } else {
                (f2 & !0x10u8) & 0xF0
            }),
            pf == 0u8 | 0u8 | (if h {
                0x20u8
            } else {
                0u8
            }) | (if c {
                0x10u8
            } else {
                0u8
            }),
    ;
}

/// Writing Subtract, Zero, Half-Carry and Carry in that order leaves
/// exactly the packed flag byte with Zero and Subtract clear.
pub proof fn lemma_flags_nzhc(f0: u8, h: bool, c: bool)
    ensures
        flag_written(
            flag_written(flag_written(flag_written(f0, CpuFlag::N, false), CpuFlag::Z, false), CpuFlag::H, h),
            CpuFlag::C,
            c,
        ) == pack_flags(false, false, h, c),
{
    let f1 = flag_written(f0, CpuFlag::N, false);
    let f2 = flag_written(f1, CpuFlag::Z, false);
    let f3 = flag_written(f2, CpuFlag::H, h);
    let f4 = flag_written(f3, CpuFlag::C, c);
    let pf = pack_flags(false, false, h, c);
    assert(f4 == pf) by (bit_vector)
        requires
            f1 == ((f0 & !0x40u8) & 0xF0),
            f2 == ((f1 & !0x80u8) & 0xF0),
            f3 == (if h {
                (f2 | 0x20u8) & 0xF0
            } else {
                (f2 & !0x20u8) & 0xF0
            }),
            f4 == (if c {
                (f3 | 0x10u8) & 0xF0
            } else {
                (f3 & !0x10u8) & 0xF0
            }),
            pf == 0u8 | 0u8 | (if h {
                0x20u8
            } else {
                0u8
            }) | (if c {
                0x10u8
            } else {
                0u8
            }),
    ;
}

/// The opcodes this core implements: the 8-bit adds (register,
/// HL-indirect and immediate operands, with and without carry), the
/// 16-bit adds into HL, and the stack-pointer signed-immediate add.
pub open spec fn implemented_opcode(op: u8) -> bool {
    op == 0x09 || op == 0x19 || op == 0x29 || op == 0x39 || (0x80 <= op && op <= 0x8F) || op == 0xC6
        || op == 0xCE || op == 0xE8
}

/// The fixed cycle count of each implemented opcode: one for a
/// register-to-register 8-bit add, two for the memory-indirect and
/// immediate 8-bit forms and for the 16-bit adds, four for the
/// stack-pointer signed-immediate add.
pub open spec fn cycle_count(op: u8) -> u32 {
    if op == 0xE8 {
        4
    } else if op == 0x09 || op == 0x19 || op == 0x29 || op == 0x39 {
        2
    } else if op == 0x86 || op == 0x8E || op == 0xC6 || op == 0xCE {
        2
    } else {
        1
    }
}

/// The register file after an 8-bit add of the given operand byte.
pub open spec fn add8_step(reg: Registers, byte: u8, usec: bool) -> Registers {
    Registers {
        a: add8_result(reg.a, byte, carry_in(reg.f, usec)),
        f: add8_flags(reg.a, byte, carry_in(reg.f, usec)),
        ..reg
    }
}

/// The register file after a 16-bit add of the given operand into HL.
pub open spec fn add16_step(reg: Registers, n: u16) -> Registers {
    Registers {
        h: high_byte(word_add(pair_val(reg.h, reg.l), n)),
        l: low_byte(word_add(pair_val(reg.h, reg.l), n)),
        f: add16_flags(reg.f, pair_val(reg.h, reg.l), n),
        ..reg
    }
}

/// The register file after one operand byte has been fetched from the
/// instruction stream.
pub open spec fn fetched(reg: Registers) -> Registers {
    Registers { pc: word_inc(reg.pc), ..reg }
}

/// The register file after the stack-pointer signed-immediate add: the
/// displacement byte is fetched, the wrapped sum is committed to the
/// stack pointer, and the flags treat the byte as unsigned.
pub open spec fn add16imm_step(reg: Registers, b: u8) -> Registers {
    Registers {
        pc: word_inc(reg.pc),
        sp: word_add(reg.sp, b as u16),
        f: add16imm_flags(reg.sp, b as u16),
        ..reg
    }
}

/// The opcode table: the register file after one implemented opcode is
/// dispatched against the given memory. An opcode outside the table
/// leaves the registers as they are; the dispatcher refuses it.
pub open spec fn step(reg: Registers, mem: Seq<u8>, op: u8) -> Registers {
    if op == 0x09 {
        add16_step(reg, pair_val(reg.b, reg.c))
    } else if op == 0x19 {
        add16_step(reg, pair_val(reg.d, reg.e))
    } else if op == 0x29 {
        add16_step(reg, pair_val(reg.h, reg.l))
    } else if op == 0x39 {
        add16_step(reg, reg.sp)
    } else if op == 0x80 {
        add8_step(reg, reg.b, false)
    } else if op == 0x81 {
        add8_step(reg, reg.c, false)
    } else if op == 0x82 {
        add8_step(reg, reg.d, false)
    } else if op == 0x83 {
        add8_step(reg, reg.e, false)
    } else if op == 0x84 {
        add8_step(reg, reg.h, false)
    } else if op == 0x85 {
        add8_step(reg, reg.l, false)
    } else if op == 0x86 {
        add8_step(reg, mem[pair_val(reg.h, reg.l) as int], false)
    } else if op == 0x87 {
        add8_step(reg, reg.a, false)
    } else if op == 0x88 {
        add8_step(reg, reg.b, true)
    } else if op == 0x89 {
        add8_step(reg, reg.c, true)
    } else if op == 0x8A {
        add8_step(reg, reg.d, true)
    } else if op == 0x8B {
        add8_step(reg, reg.e, true)
    } else if op == 0x8C {
        add8_step(reg, reg.h, true)
    } else if op == 0x8D {
        add8_step(reg, reg.l, true)
    } else if op == 0x8E {
        add8_step(reg, mem[pair_val(reg.h, reg.l) as int], true)
    } else if op == 0x8F {
        add8_step(reg, reg.a, true)
    } else if op == 0xC6 {
        add8_step(fetched(reg), mem[reg.pc as int], false)
    } else if op == 0xCE {
        add8_step(fetched(reg), mem[reg.pc as int], true)
    } else if op == 0xE8 {
        add16imm_step(reg, mem[reg.pc as int])
    } else {
        reg
    }
}

/// Whether the dispatcher can map this opcode to an instruction; callers
/// outside the verified core gate their dispatch calls on this.
pub fn implemented(opcode: u8) -> (r: bool)
    ensures
        r == implemented_opcode(opcode),
{
    match opcode {
        0x09 | 0x19 | 0x29 | 0x39 | 0xC6 | 0xCE | 0xE8 => true,
        _ => 0x80 <= opcode && opcode <= 0x8F,
    }
}

/// A CPU instance: its register file and its memory.
pub struct CPU {
    pub reg: Registers,
    pub mmu: MMU,
}

impl CPU {
    /// The memory backing this CPU spans the whole address space.
    pub open spec fn wf(self) -> bool {
        self.mmu.wf()
    }

    /// A fresh CPU: registers at their reset values, memory zeroed.
    pub fn new() -> (c: CPU)
        ensures
            c.wf(),
            c.reg == reset_state(),
            forall|i: int| 0 <= i < c.mmu.memory@.len() ==> c.mmu.memory@[i] == 0,
    {
        CPU { reg: Registers::new(), mmu: MMU::new() }
    }

    /// Read the byte at the program counter and advance the counter by
    /// one, wrapping at the top of the address space.
    fn fetchbyte(&mut self) -> (r: u8)
        requires
            old(self).wf(),
        ensures
            r == old(self).mmu.memory@[old(self).reg.pc as int],
            final(self).reg == (Registers { pc: word_inc(old(self).reg.pc), ..old(self).reg }),
            final(self).mmu == old(self).mmu,
    {
        let byte: u8 = self.mmu.read_byte(self.reg.pc);
        let pc0: u16 = self.reg.pc;
        self.reg.pc = pc0.wrapping_add(1);
        proof {
            assert(pc0.wrapping_add(1) == word_inc(pc0));
        }
        byte
    }

    /// 8-bit add into the accumulator, with carry-in when `usec` names
    /// the add-with-carry variant and the Carry flag is set. The wrapped
    /// sum lands in the accumulator; Zero is set exactly when that sum is
    /// zero, Subtract is cleared, Half-Carry and Carry report nibble and
    /// byte overflow of the unwrapped sum.
    pub fn alu_add(&mut self, byte: u8, usec: bool)
        ensures
            *final(self) == (CPU {
                reg: Registers {
                    a: add8_result(old(self).reg.a, byte, carry_in(old(self).reg.f, usec)),
                    f: add8_flags(old(self).reg.a, byte, carry_in(old(self).reg.f, usec)),
                    ..old(self).reg
                },
                mmu: old(self).mmu,
            }),
            (final(self).reg.f & flag_mask(CpuFlag::Z) != 0) == (final(self).reg.a == 0),
            final(self).reg.f & flag_mask(CpuFlag::N) == 0,
            (final(self).reg.f & flag_mask(CpuFlag::H) != 0) == add8_half(
                old(self).reg.a,
                byte,
                carry_in(old(self).reg.f, usec),
            ),
            (final(self).reg.f & flag_mask(CpuFlag::C) != 0) == add8_carry(
                old(self).reg.a,
                byte,
                carry_in(old(self).reg.f, usec),
            ),
            low_nibble_clear(final(self).reg.f),
    {
        let c: u8 = if usec && self.reg.getflag(CpuFlag::C) {
            1
        } else {
            0
        };
        let a: u8 = self.reg.a;
        proof {
            assert(a & 0xF < 0x10 && byte & 0xF < 0x10) by (bit_vector);
        }
        let wide: u16 = (a as u16) + (byte as u16) + (c as u16);
        let r: u8 = (wide % 256) as u8;
        let half: bool = (a & 0xF) + (byte & 0xF) + c > 0xF;
        let carry: bool = wide > 0xFF;

        self.reg.flag(CpuFlag::Z, r == 0);
        self.reg.flag(CpuFlag::N, false);
        self.reg.flag(CpuFlag::H, half);
        self.reg.flag(CpuFlag::C, carry);
        self.reg.a = r;
        proof {
            lemma_flags_znhc(old(self).reg.f, r == 0, half, carry);
            lemma_pack_flag_bits(r == 0, false, half, carry);
        }
    }

    /// 16-bit add of the operand into the HL pair. The wrapped sum lands
    /// in HL; Subtract is cleared, Half-Carry reports overflow out of bit
    /// 11, Carry overflow out of the word, and Zero is left untouched.
    pub fn alu_add16(&mut self, b: u16)
        ensures
            *final(self) == (CPU {
                reg: Registers {
                    h: high_byte(word_add(pair_val(old(self).reg.h, old(self).reg.l), b)),
                    l: low_byte(word_add(pair_val(old(self).reg.h, old(self).reg.l), b)),
                    f: add16_flags(old(self).reg.f, pair_val(old(self).reg.h, old(self).reg.l), b),
                    ..old(self).reg
                },
                mmu: old(self).mmu,
            }),
            pair_val(final(self).reg.h, final(self).reg.l) == word_add(
                pair_val(old(self).reg.h, old(self).reg.l),
                b,
            ),
            final(self).reg.f & flag_mask(CpuFlag::Z) == old(self).reg.f & flag_mask(CpuFlag::Z),
            final(self).reg.f & flag_mask(CpuFlag::N) == 0,
            low_nibble_clear(final(self).reg.f),
    {
        let a: u16 = self.reg.hl();
        proof {
            assert(a & 0x07FF <= 0x07FF && b & 0x07FF <= 0x07FF) by (bit_vector);
        }
        let half: bool = (a & 0x07FF) + (b & 0x07FF) > 0x07FF;
        let carry: bool = a > 0xFFFF - b;
        let r: u16 = a.wrapping_add(b);

        self.reg.flag(CpuFlag::H, half);
        self.reg.flag(CpuFlag::N, false);
        self.reg.flag(CpuFlag::C, carry);
        self.reg.sethl(r);
        proof {
            lemma_flags_hnc(old(self).reg.f, half, carry);
            lemma_zero_bit_kept(old(self).reg.f, half, carry);
            assert(r == word_add(a, b));
            crate::registers::lemma_pair_roundtrip(word_add(a, b));
        }
    }

    /// Stack-pointer-relative signed add: read the displacement byte from
    /// the instruction stream (advancing the program counter) and return
    /// the base plus that byte, wrapped modulo 65536. The flag
    /// computation treats the byte as unsigned — an architectural quirk —
    /// and Zero and Subtract are always cleared, never computed. The
    /// result is returned, not committed: the dispatcher decides which
    /// 16-bit register receives it.
    pub fn alu_add16imm(&mut self, a: u16) -> (res: u16)
        requires
            old(self).wf(),
        ensures
            res == word_add(a, old(self).mmu.memory@[old(self).reg.pc as int] as u16),
            *final(self) == (CPU {
                reg: Registers {
                    pc: word_inc(old(self).reg.pc),
                    f: add16imm_flags(a, old(self).mmu.memory@[old(self).reg.pc as int] as u16),
                    ..old(self).reg
                },
                mmu: old(self).mmu,
            }),
            final(self).reg.f & flag_mask(CpuFlag::Z) == 0,
            final(self).reg.f & flag_mask(CpuFlag::N) == 0,
            (final(self).reg.f & flag_mask(CpuFlag::H) != 0) == add16imm_half(
                a,
                old(self).mmu.memory@[old(self).reg.pc as int] as u16,
            ),
            (final(self).reg.f & flag_mask(CpuFlag::C) != 0) == add16imm_carry(
                a,
                old(self).mmu.memory@[old(self).reg.pc as int] as u16,
            ),
            low_nibble_clear(final(self).reg.f),
    {
        let b: u16 = self.fetchbyte() as u16;
        proof {
            assert(a & 0x000F <= 0x000F && b & 0x000F <= 0x000F) by (bit_vector);
            assert(a & 0x00FF <= 0x00FF && b & 0x00FF <= 0x00FF) by (bit_vector);
        }
        let half: bool = (a & 0x000F) + (b & 0x000F) > 0x000F;
        let carry: bool = (a & 0x00FF) + (b & 0x00FF) > 0x00FF;

        self.reg.flag(CpuFlag::N, false);
        self.reg.flag(CpuFlag::Z, false);
        self.reg.flag(CpuFlag::H, half);
        self.reg.flag(CpuFlag::C, carry);
        proof {
            lemma_flags_nzhc(old(self).reg.f, half, carry);
            lemma_pack_flag_bits(false, false, half, carry);
        }
        a.wrapping_add(b)
    }

    /// Dispatch one implemented opcode: fetch any operand byte it needs,
    /// run the matching ALU routine, commit the result, and return the
    /// fixed cycle count of that opcode.
    pub fn call(&mut self, opcode: u8) -> (r: u32)
        requires
            old(self).wf(),
            implemented_opcode(opcode),
        ensures
            r == cycle_count(opcode),
            final(self).reg == step(old(self).reg, old(self).mmu.memory@, opcode),
            final(self).mmu == old(self).mmu,
            final(self).wf(),
            low_nibble_clear(final(self).reg.f),
    {
        match opcode {
            0x09 => {
                let v: u16 = self.reg.bc();
                self.alu_add16(v);
                2
            },
            0x19 => {
                let v: u16 = self.reg.de();
                self.alu_add16(v);
                2
            },
            0x29 => {
                let v: u16 = self.reg.hl();
                self.alu_add16(v);
                2
            },
            0x39 => {
                let v: u16 = self.reg.sp;
                self.alu_add16(v);
                2
            },
            0x80 => {
                let v: u8 = self.reg.b;
                self.alu_add(v, false);
                1
            },
            0x81 => {
                let v: u8 = self.reg.c;
                self.alu_add(v, false);
                1
            },
            0x82 => {
                let v: u8 = self.reg.d;
                self.alu_add(v, false);
                1
            },
            0x83 => {
                let v: u8 = self.reg.e;
                self.alu_add(v, false);
                1
            },
            0x84 => {
                let v: u8 = self.reg.h;
                self.alu_add(v, false);
                1
            },
            0x85 => {
                let v: u8 = self.reg.l;
                self.alu_add(v, false);
                1
            },
            0x86 => {
                let addr: u16 = self.reg.hl();
                let byte: u8 = self.mmu.read_byte(addr);
                self.alu_add(byte, false);
                2
            },
            0x87 => {
                let v: u8 = self.reg.a;
                self.alu_add(v, false);
                1
            },
            0x88 => {
                let v: u8 = self.reg.b;
                self.alu_add(v, true);
                1
            },
            0x89 => {
                let v: u8 = self.reg.c;
                self.alu_add(v, true);
                1
            },
            0x8A => {
                let v: u8 = self.reg.d;
                self.alu_add(v, true);
                1
            },
            0x8B => {
                let v: u8 = self.reg.e;
                self.alu_add(v, true);
                1
            },
            0x8C => {
                let v: u8 = self.reg.h;
                self.alu_add(v, true);
                1
            },
            0x8D => {
                let v: u8 = self.reg.l;
                self.alu_add(v, true);
                1
            },
            0x8E => {
                let addr: u16 = self.reg.hl();
                let byte: u8 = self.mmu.read_byte(addr);
                self.alu_add(byte, true);
                2
            },
            0x8F => {
                let v: u8 = self.reg.a;
                self.alu_add(v, true);
                1
            },
            0xC6 => {
                let n: u8 = self.fetchbyte();
                self.alu_add(n, false);
                2
            },
            0xCE => {
                let n: u8 = self.fetchbyte();
                self.alu_add(n, true);
                2
            },
            0xE8 => {
                let base: u16 = self.reg.sp;
                let v: u16 = self.alu_add16imm(base);
                self.reg.sp = v;
                4
            },
            _ => vstd::pervasive::unreached(),
        }
    }
}

/// Keeping the Zero bit and packing the other three flags neither sets
/// Subtract nor touches the reserved low nibble, and reads back the same
/// Zero bit.
pub proof fn lemma_zero_bit_kept(f: u8, h: bool, c: bool)
    ensures
        ((f & flag_mask(CpuFlag::Z)) | pack_flags(false, false, h, c)) & flag_mask(CpuFlag::Z) == f
            & flag_mask(CpuFlag::Z),
        ((f & flag_mask(CpuFlag::Z)) | pack_flags(false, false, h, c)) & flag_mask(CpuFlag::N) == 0,
        low_nibble_clear((f & flag_mask(CpuFlag::Z)) | pack_flags(false, false, h, c)),
        (((f & flag_mask(CpuFlag::Z)) | pack_flags(false, false, h, c)) & flag_mask(CpuFlag::H) != 0)
            == h,
        (((f & flag_mask(CpuFlag::Z)) | pack_flags(false, false, h, c)) & flag_mask(CpuFlag::C) != 0)
            == c,
{
    let pf = pack_flags(false, false, h, c);
    let g = (f & 0x80u8) | pf;
    assert(g & 0x80u8 == f & 0x80u8 && g & 0x40u8 == 0 && g & 0x0Fu8 == 0 && (g & 0x20u8 != 0) == h
        && (g & 0x10u8 != 0) == c) by (bit_vector)
        requires
            pf == 0u8 | 0u8 | (if h {
                0x20u8
            } else {
                0u8
            }) | (if c {
                0x10u8
            } else {
                0u8
            }),
            g == (f & 0x80u8) | pf,
    ;
}

} // verus!
