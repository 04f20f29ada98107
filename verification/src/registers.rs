//! The register file: eight 8-bit registers, the packed flag byte, the
//! program counter and the stack pointer, together with the 16-bit pair
//! views over the 8-bit cells.

use vstd::prelude::*;

verus! {

/// One of the four status flags packed into the high nibble of the flag
/// register: Carry, Half-Carry, Subtract and Zero.
#[derive(Clone, Copy, Debug)]
pub enum CpuFlag {
    C,
    H,
    N,
    Z,
}

/// Bit mask of a flag within the packed flag byte.
pub open spec fn flag_mask(flag: CpuFlag) -> u8 {
    match flag {
        CpuFlag::C => 0x10,
        CpuFlag::H => 0x20,
        CpuFlag::N => 0x40,
        CpuFlag::Z => 0x80,
    }
}

/// The flag byte after one flag is written: the chosen bit is set or
/// cleared and the reserved low nibble is forced back to zero.
pub open spec fn flag_written(f: u8, flag: CpuFlag, set: bool) -> u8 {
    if set {
        (f | flag_mask(flag)) & 0xF0
    } else {
        (f & !flag_mask(flag)) & 0xF0
    }
}

/// The reserved low nibble of the flag byte is clear; this holds after
/// every flag mutation.
pub open spec fn low_nibble_clear(f: u8) -> bool {
    f & 0x0F == 0
}

/// Two 8-bit registers seen as one 16-bit value, high byte first.
pub open spec fn pair_val(hi: u8, lo: u8) -> u16 {
    ((hi as u16) << 8) | (lo as u16)
}

/// High byte of a 16-bit value.
pub open spec fn high_byte(v: u16) -> u8 {
    (v >> 8) as u8
}

/// Low byte of a 16-bit value.
pub open spec fn low_byte(v: u16) -> u8 {
    (v & 0x00FF) as u8
}

/// 16-bit addition wrapped modulo 65536.
pub open spec fn word_add(a: u16, b: u16) -> u16 {
    ((a + b) % 0x10000) as u16
}

/// 16-bit increment wrapped modulo 65536.
pub open spec fn word_inc(v: u16) -> u16 {
    word_add(v, 1)
}

/// 16-bit decrement wrapped modulo 65536.
pub open spec fn word_dec(v: u16) -> u16 {
    if v == 0 {
        0xFFFF
    } else {
        (v - 1) as u16
    }
}

/// Splitting a 16-bit value into its bytes and rejoining them gives the
/// value back: the round trip through any plain register pair is exact.
pub proof fn lemma_pair_roundtrip(v: u16)
    ensures
        pair_val(high_byte(v), low_byte(v)) == v,
{
    assert(((((v >> 8) as u8) as u16) << 8) | (((v & 0x00FF) as u8) as u16) == v) by (bit_vector);
}

/// Round trip through the accumulator/flags pair: the low byte is masked
/// to its valid high nibble when stored and again when read, so the value
/// read back is the written value with its low nibble cleared.
pub proof fn lemma_af_roundtrip(v: u16)
    ensures
        pair_val(high_byte(v), (low_byte(v) & 0xF0) & 0xF0) == (v & 0xFFF0),
{
    assert(((((v >> 8) as u8) as u16) << 8) | (((((v & 0x00FF) as u8) & 0xF0) & 0xF0) as u16) == (
    v & 0xFFF0)) by (bit_vector);
}

/// The register file. The pair views AF, BC, DE and HL are composed from
/// these cells on every access; there is no cached 16-bit copy.
#[derive(Debug)]
#[verifier::ext_equal]
pub struct Registers {
    pub a: u8,
    pub f: u8,
    pub b: u8,
    pub c: u8,
    pub d: u8,
    pub e: u8,
    pub h: u8,
    pub l: u8,
    pub pc: u16,
    pub sp: u16,
}

/// The architectural reset state: every cell cleared except register B,
/// which the reset vector leaves at a fixed non-zero value.
pub open spec fn reset_state() -> Registers {
    Registers { a: 0, f: 0, b: 0x70, c: 0, d: 0, e: 0, h: 0, l: 0, pc: 0, sp: 0 }
}

impl Registers {
    /// Construct the register file in its architectural reset state.
    pub fn new() -> (r: Registers)
        ensures
            r == reset_state(),
            r.a == 0,
            r.f == 0,
            r.b == 0x70,
            r.c == 0,
            r.d == 0,
            r.e == 0,
            r.h == 0,
            r.l == 0,
            r.pc == 0,
            r.sp == 0,
            low_nibble_clear(r.f),
    {
        proof {
            assert(0u8 & 0x0F == 0) by (bit_vector);
        }
        Registers {
            a: 0x00,
            f: 0x00,
            b: 0x70,
            c: 0x00,
            d: 0x00,
            e: 0x00,
            h: 0x00,
            l: 0x00,
            pc: 0x0000,
            sp: 0x0000,
        }
    }

    /// Set or clear one flag, leaving the other three alone and forcing
    /// the reserved low nibble back to zero.
    pub fn flag(&mut self, flags: CpuFlag, set: bool)
        ensures
            final(self).f == flag_written(old(self).f, flags, set),
            low_nibble_clear(final(self).f),
            final(self).a == old(self).a,
            final(self).b == old(self).b,
            final(self).c == old(self).c,
            final(self).d == old(self).d,
            final(self).e == old(self).e,
            final(self).h == old(self).h,
            final(self).l == old(self).l,
            final(self).pc == old(self).pc,
            final(self).sp == old(self).sp,
    {
        let mask: u8 = match flags {
            CpuFlag::C => 0x10,
            CpuFlag::H => 0x20,
            CpuFlag::N => 0x40,
            CpuFlag::Z => 0x80,
        };
        match set {
            true => self.f |= mask,
            false => self.f &= !mask,
        }
        let ghost fmid: u8 = self.f;
        self.f &= 0xF0;
        proof {
            assert((fmid & 0xF0) & 0x0F == 0) by (bit_vector);
        }
    }

    /// Whether one flag is currently set.
    pub fn getflag(&self, flags: CpuFlag) -> (r: bool)
        ensures
            r == (self.f & flag_mask(flags) != 0),
    {
        let mask: u8 = match flags {
            CpuFlag::C => 0x10,
            CpuFlag::H => 0x20,
            CpuFlag::N => 0x40,
            CpuFlag::Z => 0x80,
        };
        self.f & mask > 0
    }

    /// The accumulator/flags pair; the flag byte contributes only its
    /// valid high nibble.
    pub fn af(&self) -> (r: u16)
        ensures
            r == pair_val(self.a, self.f & 0xF0),
    {
        ((self.a as u16) << 8) | (((self.f & 0xF0) as u16))
    }

    /// The BC pair.
    pub fn bc(&self) -> (r: u16)
        ensures
            r == pair_val(self.b, self.c),
    {
        ((self.b as u16) << 8) | (self.c as u16)
    }

    /// The DE pair.
    pub fn de(&self) -> (r: u16)
        ensures
            r == pair_val(self.d, self.e),
    {
        ((self.d as u16) << 8) | (self.e as u16)
    }

    /// The HL pair.
    pub fn hl(&self) -> (r: u16)
        ensures
            r == pair_val(self.h, self.l),
    {
        ((self.h as u16) << 8) | (self.l as u16)
    }

    /// Write the accumulator/flags pair: the high byte goes to the
    /// accumulator, the low byte is masked to its valid high nibble
    /// before it reaches the flag register.
    pub fn setaf(&mut self, value: u16)
        ensures
            final(self).a == high_byte(value),
            final(self).f == (low_byte(value) & 0xF0),
            low_nibble_clear(final(self).f),
            final(self).b == old(self).b,
            final(self).c == old(self).c,
            final(self).d == old(self).d,
            final(self).e == old(self).e,
            final(self).h == old(self).h,
            final(self).l == old(self).l,
            final(self).pc == old(self).pc,
            final(self).sp == old(self).sp,
    {
        self.a = (value >> 8) as u8;
        self.f = (value & 0x00F0) as u8;
        proof {
            assert((value & 0x00F0) as u8 == ((value & 0x00FF) as u8) & 0xF0) by (bit_vector);
            assert((((value & 0x00FF) as u8) & 0xF0) & 0x0F == 0) by (bit_vector);
        }
    }

    /// Write the BC pair.
    pub fn setbc(&mut self, value: u16)
        ensures
            final(self).b == high_byte(value),
            final(self).c == low_byte(value),
            *final(self) == (Registers { b: high_byte(value), c: low_byte(value), ..*old(self) }),
    {
        self.b = (value >> 8) as u8;
        self.c = (value & 0x00FF) as u8;
    }

    /// Write the DE pair.
    pub fn setde(&mut self, value: u16)
        ensures
            final(self).d == high_byte(value),
            final(self).e == low_byte(value),
            *final(self) == (Registers { d: high_byte(value), e: low_byte(value), ..*old(self) }),
    {
        self.d = (value >> 8) as u8;
        self.e = (value & 0x00FF) as u8;
    }

    /// Write the HL pair.
    pub fn sethl(&mut self, value: u16)
        ensures
            final(self).h == high_byte(value),
            final(self).l == low_byte(value),
            *final(self) == (Registers { h: high_byte(value), l: low_byte(value), ..*old(self) }),
    {
        self.h = (value >> 8) as u8;
        self.l = (value & 0x00FF) as u8;
    }

    /// Return the HL pair and decrement it in place, wrapping at zero.
    pub fn hld(&mut self) -> (res: u16)
        ensures
            res == pair_val(old(self).h, old(self).l),
            pair_val(final(self).h, final(self).l) == word_dec(res),
            *final(self) == (Registers {
                h: high_byte(word_dec(res)),
                l: low_byte(word_dec(res)),
                ..*old(self)
            }),
    {
        let res: u16 = self.hl();
        self.sethl(res.wrapping_sub(1));
        proof {
            lemma_pair_roundtrip(word_dec(res));
        }
        res
    }

    /// Return the HL pair and increment it in place, wrapping at the top
    /// of the 16-bit range.
    pub fn hli(&mut self) -> (res: u16)
        ensures
            res == pair_val(old(self).h, old(self).l),
            pair_val(final(self).h, final(self).l) == word_inc(res),
            *final(self) == (Registers {
                h: high_byte(word_inc(res)),
                l: low_byte(word_inc(res)),
                ..*old(self)
            }),
    {
        let res: u16 = self.hl();
        self.sethl(res.wrapping_add(1));
        proof {
            lemma_pair_roundtrip(word_inc(res));
        }
        res
    }

    /// Overwrite the whole flag byte, masking the reserved low nibble to
    /// zero.
    pub fn setf(&mut self, flags: u8)
        ensures
            final(self).f == (flags & 0xF0),
            low_nibble_clear(final(self).f),
            *final(self) == (Registers { f: (flags & 0xF0), ..*old(self) }),
    {
        self.f = flags & 0xF0;
        proof {
            assert((flags & 0xF0) & 0x0F == 0) by (bit_vector);
        }
    }
}

} // verus!
