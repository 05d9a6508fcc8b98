//! The bus: the video unit answers for its own addresses, and a flat 64 KiB
//! store holds every other byte.
use vstd::prelude::*;
use vstd::array::spec_array_update;
use crate::memory::Memory;
use crate::ppu::{PPU, is_lcd_register, is_video_address, lemma_video_read_after_write};

verus! {

/// Start of the I/O page that the high-page loads and stores address.
pub const IO_REGISTERS_BEGIN: u16 = 0xFF00;

pub struct MMU {
    ppu: PPU,
    ram: [u8; 0x10000],
}

impl MMU {
    /// A bus around `ppu` with every other byte zero.
    pub fn new(ppu: PPU) -> (r: Self)
        ensures
            forall|a: u16| #[trigger] is_video_address(a) ==> r.byte(a) == ppu.byte(a),
            forall|a: u16| !is_video_address(a) ==> #[trigger] r.byte(a) == 0,
    {
        MMU { ram: [0u8; 0x10000], ppu: ppu }
    }
}

impl Memory for MMU {
    closed spec fn byte(&self, address: u16) -> u8 {
        if is_video_address(address) {
            self.ppu.byte(address)
        } else {
            self.ram[address as int]
        }
    }

    closed spec fn after_write(&self, address: u16, value: u8) -> MMU {
        if is_video_address(address) {
            MMU { ppu: self.ppu.after_write(address, value), ram: self.ram }
        } else {
            MMU { ppu: self.ppu, ram: spec_array_update(self.ram, address as int, value) }
        }
    }

    open spec fn maps(address: u16) -> bool {
        true
    }

    fn read_byte(&self, address: u16) -> (r: u8) {
        if PPU::maps_address(address) {
            self.ppu.read_byte(address)
        } else {
            self.ram[address as usize]
        }
    }

    fn write_byte(&mut self, address: u16, value: u8) {
        if PPU::maps_address(address) {
            self.ppu.write_byte(address, value);
        } else {
            self.ram[address as usize] = value;
        }
    }
}

/// Outside the LCD registers the bus is plain storage: a read returns the
/// last byte written to that address, and a write changes no other address.
pub proof fn lemma_read_after_write(m: MMU, a: u16, v: u8, b: u16)
    requires
        !is_lcd_register(b),
    ensures
        m.after_write(a, v).byte(b) == (if a == b { v } else { m.byte(b) }),
{
    if is_video_address(a) && is_video_address(b) {
        lemma_video_read_after_write(m.ppu, a, v, b);
    }
}

} // verus!
