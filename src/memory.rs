use vstd::prelude::*;

verus! {

/// The 16-bit value whose high byte is `hi` and whose low byte is `lo`.
pub open spec fn word(hi: u8, lo: u8) -> u16 {
    (hi as int * 256 + lo as int) as u16
}

/// High byte of a 16-bit value.
pub open spec fn high_byte(v: u16) -> u8 {
    (v / 256) as u8
}

/// Low byte of a 16-bit value.
pub open spec fn low_byte(v: u16) -> u8 {
    (v % 256) as u8
}

/// The address after `address`, wrapping from 0xFFFF to 0x0000.
pub open spec fn next_address(address: u16) -> u16 {
    ((address + 1) % 0x10000) as u16
}

/// A byte-addressable 16-bit address space. Words are little-endian: the low
/// byte at the address, the high byte at the address after it.
pub trait Memory: Sized {
    /// The byte that a read of `address` returns.
    spec fn byte(&self, address: u16) -> u8;

    /// The state after `value` is written to `address`.
    spec fn after_write(&self, address: u16, value: u8) -> Self;

    /// Whether `address` belongs to this address space.
    spec fn maps(address: u16) -> bool;

    fn read_byte(&self, address: u16) -> (r: u8)
        requires
            Self::maps(address),
        ensures
            r == self.byte(address),
    ;

    fn write_byte(&mut self, address: u16, value: u8)
        requires
            Self::maps(address),
        ensures
            *final(self) == old(self).after_write(address, value),
    ;

    fn read_word(&self, address: u16) -> (r: u16)
        requires
            Self::maps(address),
            Self::maps(next_address(address)),
        ensures
            r == word(self.byte(next_address(address)), self.byte(address)),
    {
        let lo = self.read_byte(address);
        let hi = self.read_byte(address.wrapping_add(1));
        (hi as u16) * 256 + (lo as u16)
    }

    fn write_word(&mut self, address: u16, value: u16)
        requires
            Self::maps(address),
            Self::maps(next_address(address)),
        ensures
            *final(self) == old(self).after_write(address, low_byte(value)).after_write(
                next_address(address),
                high_byte(value),
            ),
    {
        self.write_byte(address, (value % 256) as u8);
        self.write_byte(address.wrapping_add(1), (value / 256) as u8);
    }
}

} // verus!
