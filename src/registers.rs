use vstd::prelude::*;
use crate::memory::{word, high_byte, low_byte};

verus! {

/// The flags register: zero (bit 7), subtract (bit 6), half-carry (bit 5) and
/// carry (bit 4). The low nibble is zero in every value the CPU produces.
#[derive(Clone, Copy, Debug, PartialEq, Eq, Structural)]
pub struct Flags(pub u8);

/// The byte whose four high bits hold the given flags and whose low nibble is zero.
pub open spec fn flag_byte(z: bool, n: bool, h: bool, c: bool) -> u8 {
    (if z { 0x80u8 } else { 0u8 }) | (if n { 0x40u8 } else { 0u8 }) | (if h { 0x20u8 } else {
        0u8
    }) | (if c { 0x10u8 } else { 0u8 })
}

/// The flags value holding exactly the given four flags.
pub open spec fn flags(z: bool, n: bool, h: bool, c: bool) -> Flags {
    Flags(flag_byte(z, n, h, c))
}

/// Each flag of a packed byte reads back as it was packed.
pub proof fn lemma_flag_byte(z: bool, n: bool, h: bool, c: bool)
    by (bit_vector)
    ensures
        flag_byte(z, n, h, c) & 0x80 != 0 <==> z,
        flag_byte(z, n, h, c) & 0x40 != 0 <==> n,
        flag_byte(z, n, h, c) & 0x20 != 0 <==> h,
        flag_byte(z, n, h, c) & 0x10 != 0 <==> c,
        flag_byte(z, n, h, c) & 0x0F == 0,
{
}

impl Flags {
    pub open spec fn spec_z(&self) -> bool {
        self.0 & 0x80 != 0
    }

    pub open spec fn spec_n(&self) -> bool {
        self.0 & 0x40 != 0
    }

    pub open spec fn spec_h(&self) -> bool {
        self.0 & 0x20 != 0
    }

    pub open spec fn spec_c(&self) -> bool {
        self.0 & 0x10 != 0
    }

    /// All flags clear.
    pub fn new() -> (r: Self)
        ensures
            r == Flags(0),
    {
        Flags(0x00)
    }

    /// The flags value holding exactly the given four flags.
    pub fn pack(z: bool, n: bool, h: bool, c: bool) -> (r: Self)
        ensures
            r == flags(z, n, h, c),
    {
        Flags(
            (if z { 0x80u8 } else { 0u8 }) | (if n { 0x40u8 } else { 0u8 }) | (if h { 0x20u8 } else {
                0u8
            }) | (if c { 0x10u8 } else { 0u8 }),
        )
    }

    /// Get zero flag.
    #[verifier::when_used_as_spec(spec_z)]
    pub fn z(&self) -> (r: bool)
        ensures
            r == self.spec_z(),
    {
        self.0 & 0x80 != 0
    }

    /// Get subtraction flag (BCD).
    #[verifier::when_used_as_spec(spec_n)]
    pub fn n(&self) -> (r: bool)
        ensures
            r == self.spec_n(),
    {
        self.0 & 0x40 != 0
    }

    /// Get half-carry flag (BCD).
    #[verifier::when_used_as_spec(spec_h)]
    pub fn h(&self) -> (r: bool)
        ensures
            r == self.spec_h(),
    {
        self.0 & 0x20 != 0
    }

    /// Get carry flag.
    #[verifier::when_used_as_spec(spec_c)]
    pub fn c(&self) -> (r: bool)
        ensures
            r == self.spec_c(),
    {
        self.0 & 0x10 != 0
    }

    /// Set zero flag; the other bits are kept.
    pub fn set_z(&mut self, value: bool)
        ensures
            *final(self) == Flags(if value { old(self).0 | 0x80 } else { old(self).0 & 0x7F }),
    {
        self.0 = if value { self.0 | 0x80 } else { self.0 & 0x7F };
    }

    /// Set subtraction flag (BCD); the other bits are kept.
    pub fn set_n(&mut self, value: bool)
        ensures
            *final(self) == Flags(if value { old(self).0 | 0x40 } else { old(self).0 & 0xBF }),
    {
        self.0 = if value { self.0 | 0x40 } else { self.0 & 0xBF };
    }

    /// Set half-carry flag (BCD); the other bits are kept.
    pub fn set_h(&mut self, value: bool)
        ensures
            *final(self) == Flags(if value { old(self).0 | 0x20 } else { old(self).0 & 0xDF }),
    {
        self.0 = if value { self.0 | 0x20 } else { self.0 & 0xDF };
    }

    /// Set carry flag; the other bits are kept.
    pub fn set_c(&mut self, value: bool)
        ensures
            *final(self) == Flags(if value { old(self).0 | 0x10 } else { old(self).0 & 0xEF }),
    {
        self.0 = if value { self.0 | 0x10 } else { self.0 & 0xEF };
    }
}

/// The register file: eight 8-bit registers, read in pairs as AF, BC, DE and
/// HL, with the program counter and the stack pointer.
#[derive(Clone, Copy, Debug, PartialEq, Eq, Structural)]
pub struct Registers {
    pub a: u8,
    pub b: u8,
    pub c: u8,
    pub d: u8,
    pub e: u8,
    pub f: Flags,
    pub h: u8,
    pub l: u8,
    pub pc: u16,
    pub sp: u16,
}

impl Registers {
    pub open spec fn spec_af(&self) -> u16 {
        word(self.a, self.f.0 & 0xF0)
    }

    pub open spec fn spec_bc(&self) -> u16 {
        word(self.b, self.c)
    }

    pub open spec fn spec_de(&self) -> u16 {
        word(self.d, self.e)
    }

    pub open spec fn spec_hl(&self) -> u16 {
        word(self.h, self.l)
    }

    /// These registers with AF set to `v`; the low nibble of F is cleared.
    pub open spec fn with_af(self, v: u16) -> Registers {
        Registers { a: high_byte(v), f: Flags(low_byte(v) & 0xF0), ..self }
    }

    pub open spec fn with_bc(self, v: u16) -> Registers {
        Registers { b: high_byte(v), c: low_byte(v), ..self }
    }

    pub open spec fn with_de(self, v: u16) -> Registers {
        Registers { d: high_byte(v), e: low_byte(v), ..self }
    }

    pub open spec fn with_hl(self, v: u16) -> Registers {
        Registers { h: high_byte(v), l: low_byte(v), ..self }
    }

    /// All registers zero.
    pub fn new() -> (r: Self)
        ensures
            r == (Registers {
                a: 0,
                b: 0,
                c: 0,
                d: 0,
                e: 0,
                f: Flags(0),
                h: 0,
                l: 0,
                pc: 0,
                sp: 0,
            }),
    {
        Registers { pc: 0, sp: 0, a: 0, f: Flags::new(), b: 0, c: 0, d: 0, e: 0, h: 0, l: 0 }
    }

    /// Get value of the 16 bit register using A and F.
    #[verifier::when_used_as_spec(spec_af)]
    pub fn af(&self) -> (r: u16)
        ensures
            r == self.spec_af(),
    {
        (self.a as u16) * 256 + ((self.f.0 & 0xF0) as u16)
    }

    /// Get value of the 16 bit register using B and C.
    #[verifier::when_used_as_spec(spec_bc)]
    pub fn bc(&self) -> (r: u16)
        ensures
            r == self.spec_bc(),
    {
        (self.b as u16) * 256 + (self.c as u16)
    }

    /// Get value of the 16 bit register using D and E.
    #[verifier::when_used_as_spec(spec_de)]
    pub fn de(&self) -> (r: u16)
        ensures
            r == self.spec_de(),
    {
        (self.d as u16) * 256 + (self.e as u16)
    }

    /// Get value of the 16 bit register using H and L.
    #[verifier::when_used_as_spec(spec_hl)]
    pub fn hl(&self) -> (r: u16)
        ensures
            r == self.spec_hl(),
    {
        (self.h as u16) * 256 + (self.l as u16)
    }

    /// Sets a 16 bit register using A and F; only the high nibble reaches F.
    pub fn set_af(&mut self, value: u16)
        ensures
            *final(self) == old(self).with_af(value),
    {
        self.a = (value / 256) as u8;
        self.f = Flags(((value % 256) as u8) & 0xF0);
    }

    /// Sets a 16 bit register using B and C.
    pub fn set_bc(&mut self, value: u16)
        ensures
            *final(self) == old(self).with_bc(value),
    {
        self.b = (value / 256) as u8;
        self.c = (value % 256) as u8;
    }

    /// Sets a 16 bit register using D and E.
    pub fn set_de(&mut self, value: u16)
        ensures
            *final(self) == old(self).with_de(value),
    {
        self.d = (value / 256) as u8;
        self.e = (value % 256) as u8;
    }

    /// Sets a 16 bit register using H and L.
    pub fn set_hl(&mut self, value: u16)
        ensures
            *final(self) == old(self).with_hl(value),
    {
        self.h = (value / 256) as u8;
        self.l = (value % 256) as u8;
    }
}

} // verus!
