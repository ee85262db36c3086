//! The register file: eight 8-bit registers read singly or as the pairs AF,
//! BC, DE and HL.
use vstd::prelude::*;

verus! {

/// The register file.
///
/// The four condition flags are kept as booleans, so the low nibble of F is
/// zero in every value of this type.
#[derive(Debug, Clone, Copy)]
pub struct Register {
    pub a: u8,
    pub b: u8,
    pub c: u8,
    pub d: u8,
    pub e: u8,
    pub h: u8,
    pub l: u8,
    pub zero: bool,
    pub subtract: bool,
    pub half_carry: bool,
    pub carry: bool,
}

/// The byte that holds four flags in bits 7 (Z), 6 (N), 5 (H) and 4 (C).
pub open spec fn pack_flags(zero: bool, subtract: bool, half_carry: bool, carry: bool) -> u8 {
    ((if zero { 0x80int } else { 0 }) + (if subtract { 0x40int } else { 0 }) + (if half_carry {
        0x20int
    } else {
        0
    }) + (if carry { 0x10int } else { 0 })) as u8
}

/// The pair made of a high and a low byte.
pub open spec fn pair(high: u8, low: u8) -> u16 {
    (high as int * 256 + low as int) as u16
}

/// A byte that is a multiple of sixteen has a clear low nibble, and masking a
/// byte with 0xF0 keeps exactly its flag bits.
pub proof fn lemma_flag_bits(value: u8)
    ensures
        value % 16 == 0 ==> value & 0x0F == 0,
        (value & 0xF0) & 0x0F == 0,
        pack_flags(value & 0x80 != 0, value & 0x40 != 0, value & 0x20 != 0, value & 0x10 != 0)
            == value & 0xF0,
{
    assert(value % 16 == 0 ==> value & 0x0F == 0) by (bit_vector);
    assert((value & 0xF0) & 0x0F == 0) by (bit_vector);
    let z: u8 = if value & 0x80 != 0 { 0x80 } else { 0 };
    let n: u8 = if value & 0x40 != 0 { 0x40 } else { 0 };
    let h: u8 = if value & 0x20 != 0 { 0x20 } else { 0 };
    let c: u8 = if value & 0x10 != 0 { 0x10 } else { 0 };
    assert(z + n + h + c == (value & 0xF0) as int) by (bit_vector)
        requires
            z == (if value & 0x80 != 0 { 0x80u8 } else { 0u8 }),
            n == (if value & 0x40 != 0 { 0x40u8 } else { 0u8 }),
            h == (if value & 0x20 != 0 { 0x20u8 } else { 0u8 }),
            c == (if value & 0x10 != 0 { 0x10u8 } else { 0u8 }),
    ;
}

/// In every register file the low nibble of F is zero, and so is that of AF.
pub proof fn lemma_low_nibble_clear(register: Register)
    ensures
        register.f() & 0x0F == 0,
        register.af() & 0x000F == 0,
        register.f() % 16 == 0,
{
    lemma_flag_bits(register.f());
    let a = register.a;
    let f = register.f();
    let af = register.af();
    assert(af & 0x000F == 0) by (bit_vector)
        requires
            af == a as u16 * 256 + f as u16,
            f & 0x0F == 0,
    ;
}

impl Register {
    /// The F register: the four flags in bits 7..4, zero below.
    pub open spec fn f(self) -> u8 {
        pack_flags(self.zero, self.subtract, self.half_carry, self.carry)
    }

    /// The pair AF.
    pub open spec fn af(self) -> u16 {
        pair(self.a, self.f())
    }

    /// The pair BC.
    pub open spec fn bc(self) -> u16 {
        pair(self.b, self.c)
    }

    /// The pair DE.
    pub open spec fn de(self) -> u16 {
        pair(self.d, self.e)
    }

    /// The pair HL.
    pub open spec fn hl(self) -> u16 {
        pair(self.h, self.l)
    }

    /// This register file with F replaced: the flags are taken from bits 7..4
    /// of `value`, the low nibble is dropped.
    pub open spec fn with_f(self, value: u8) -> Register {
        Register {
            zero: value & 0x80 != 0,
            subtract: value & 0x40 != 0,
            half_carry: value & 0x20 != 0,
            carry: value & 0x10 != 0,
            ..self
        }
    }

    /// This register file with AF replaced.
    pub open spec fn with_af(self, value: u16) -> Register {
        Register { a: (value / 256) as u8, ..self.with_f((value % 256) as u8) }
    }

    /// This register file with BC replaced.
    pub open spec fn with_bc(self, value: u16) -> Register {
        Register { b: (value / 256) as u8, c: (value % 256) as u8, ..self }
    }

    /// This register file with DE replaced.
    pub open spec fn with_de(self, value: u16) -> Register {
        Register { d: (value / 256) as u8, e: (value % 256) as u8, ..self }
    }

    /// This register file with HL replaced.
    pub open spec fn with_hl(self, value: u16) -> Register {
        Register { h: (value / 256) as u8, l: (value % 256) as u8, ..self }
    }

    /// A register file with every register and flag cleared.
    pub fn new() -> (r: Self)
        ensures
            r.af() == 0,
            r.bc() == 0,
            r.de() == 0,
            r.hl() == 0,
    {
        Self {
            a: 0,
            b: 0,
            c: 0,
            d: 0,
            e: 0,
            h: 0,
            l: 0,
            zero: false,
            subtract: false,
            half_carry: false,
            carry: false,
        }
    }

    pub fn get_a(&self) -> (r: u8)
        ensures
            r == self.a,
            r == self.af() / 256,
    {
        self.a
    }

    pub fn set_a(&mut self, value: u8)
        ensures
            *final(self) == (Register { a: value, ..*old(self) }),
    {
        self.a = value;
    }

    /// Reads F. Its low nibble is always zero.
    pub fn get_f(&self) -> (r: u8)
        ensures
            r == self.f(),
            r & 0x0F == 0,
    {
        let z: u8 = if self.zero { 0x80 } else { 0 };
        let n: u8 = if self.subtract { 0x40 } else { 0 };
        let h: u8 = if self.half_carry { 0x20 } else { 0 };
        let c: u8 = if self.carry { 0x10 } else { 0 };
        let r: u8 = z + n + h + c;
        proof {
            lemma_flag_bits(r);
        }
        r
    }

    /// Writes F. The low nibble of `value` is ignored.
    pub fn set_f(&mut self, value: u8)
        ensures
            *final(self) == old(self).with_f(value),
            final(self).f() == value & 0xF0,
    {
        proof {
            lemma_flag_bits(value);
        }
        self.zero = value & 0x80 != 0;
        self.subtract = value & 0x40 != 0;
        self.half_carry = value & 0x20 != 0;
        self.carry = value & 0x10 != 0;
    }

    pub fn get_af(&self) -> (r: u16)
        ensures
            r == self.af(),
            r & 0x000F == 0,
    {
        let a = self.a;
        let f = self.get_f();
        let r: u16 = a as u16 * 256 + f as u16;
        assert(r & 0x000F == 0) by (bit_vector)
            requires
                r == a as u16 * 256 + f as u16,
                f & 0x0F == 0,
        ;
        r
    }

    /// Writes AF. The low nibble of `value` is ignored.
    pub fn set_af(&mut self, value: u16)
        ensures
            *final(self) == old(self).with_af(value),
            final(self).a == value / 256,
            final(self).f() == ((value % 256) as u8) & 0xF0,
    {
        self.a = (value / 256) as u8;
        self.set_f((value % 256) as u8);
    }

    pub fn get_b(&self) -> (r: u8)
        ensures
            r == self.b,
    {
        self.b
    }

    pub fn set_b(&mut self, value: u8)
        ensures
            *final(self) == (Register { b: value, ..*old(self) }),
    {
        self.b = value;
    }

    pub fn get_c(&self) -> (r: u8)
        ensures
            r == self.c,
    {
        self.c
    }

    pub fn set_c(&mut self, value: u8)
        ensures
            *final(self) == (Register { c: value, ..*old(self) }),
    {
        self.c = value;
    }

    pub fn get_bc(&self) -> (r: u16)
        ensures
            r == self.bc(),
    {
        self.b as u16 * 256 + self.c as u16
    }

    pub fn set_bc(&mut self, value: u16)
        ensures
            *final(self) == old(self).with_bc(value),
            final(self).bc() == value,
    {
        self.b = (value / 256) as u8;
        self.c = (value % 256) as u8;
    }

    pub fn get_d(&self) -> (r: u8)
        ensures
            r == self.d,
    {
        self.d
    }

    pub fn set_d(&mut self, value: u8)
        ensures
            *final(self) == (Register { d: value, ..*old(self) }),
    {
        self.d = value;
    }

    pub fn get_e(&self) -> (r: u8)
        ensures
            r == self.e,
    {
        self.e
    }

    pub fn set_e(&mut self, value: u8)
        ensures
            *final(self) == (Register { e: value, ..*old(self) }),
    {
        self.e = value;
    }

    pub fn get_de(&self) -> (r: u16)
        ensures
            r == self.de(),
    {
        self.d as u16 * 256 + self.e as u16
    }

    pub fn set_de(&mut self, value: u16)
        ensures
            *final(self) == old(self).with_de(value),
            final(self).de() == value,
    {
        self.d = (value / 256) as u8;
        self.e = (value % 256) as u8;
    }

    pub fn get_h(&self) -> (r: u8)
        ensures
            r == self.h,
    {
        self.h
    }

    pub fn set_h(&mut self, value: u8)
        ensures
            *final(self) == (Register { h: value, ..*old(self) }),
    {
        self.h = value;
    }

    pub fn get_l(&self) -> (r: u8)
        ensures
            r == self.l,
    {
        self.l
    }

    pub fn set_l(&mut self, value: u8)
        ensures
            *final(self) == (Register { l: value, ..*old(self) }),
    {
        self.l = value;
    }

    pub fn get_hl(&self) -> (r: u16)
        ensures
            r == self.hl(),
    {
        self.h as u16 * 256 + self.l as u16
    }

    pub fn set_hl(&mut self, value: u16)
        ensures
            *final(self) == old(self).with_hl(value),
            final(self).hl() == value,
    {
        self.h = (value / 256) as u8;
        self.l = (value % 256) as u8;
    }
}

} // verus!
