use vstd::prelude::*;
use vstd::array::spec_array_update;
use crate::memory::Memory;

verus! {

pub const VRAM_BEGIN: u16 = 0x8000;
pub const VRAM_END: u16 = 0x9FFF;
pub const OAM_BEGIN: u16 = 0xFE00;
pub const OAM_END: u16 = 0xFE9F;
/// First and last address of the LCD registers (LCDC through WX).
pub const LCD_REGISTERS_BEGIN: u16 = 0xFF40;
pub const LCD_REGISTERS_END: u16 = 0xFF4B;

/// Whether `address` is one of the LCD registers, whose reads and writes are
/// not plain storage.
pub open spec fn is_lcd_register(address: u16) -> bool {
    LCD_REGISTERS_BEGIN <= address <= LCD_REGISTERS_END
}

/// Whether the video unit answers for `address`: video RAM, sprite attribute
/// memory and the LCD registers.
pub open spec fn is_video_address(address: u16) -> bool {
    (VRAM_BEGIN <= address <= VRAM_END) || (OAM_BEGIN <= address <= OAM_END) || is_lcd_register(
        address,
    )
}

/// LCD control register.
#[derive(Clone, Copy, Debug, PartialEq, Eq, Structural)]
pub struct LCDC {
    pub data: u8,
}

impl LCDC {
    pub fn new() -> (r: Self)
        ensures
            r.data == 0,
    {
        LCDC { data: 0 }
    }

    /// LCD display enable.
    pub fn bit7(&self) -> (r: bool)
        ensures
            r == (self.data & 0x80 != 0),
    {
        self.data & 0b1000_0000 != 0x00
    }

    /// Window tile map select.
    pub fn bit6(&self) -> (r: bool)
        ensures
            r == (self.data & 0x40 != 0),
    {
        self.data & 0b0100_0000 != 0x00
    }

    /// Window display enable.
    pub fn bit5(&self) -> (r: bool)
        ensures
            r == (self.data & 0x20 != 0),
    {
        self.data & 0b0010_0000 != 0x00
    }

    /// Background and window tile data select.
    pub fn bit4(&self) -> (r: bool)
        ensures
            r == (self.data & 0x10 != 0),
    {
        self.data & 0b0001_0000 != 0x00
    }

    /// Background tile map select.
    pub fn bit3(&self) -> (r: bool)
        ensures
            r == (self.data & 0x08 != 0),
    {
        self.data & 0b0000_1000 != 0x00
    }

    /// Sprite size.
    pub fn bit2(&self) -> (r: bool)
        ensures
            r == (self.data & 0x04 != 0),
    {
        self.data & 0b0000_0100 != 0x00
    }

    /// Sprite display enable.
    pub fn bit1(&self) -> (r: bool)
        ensures
            r == (self.data & 0x02 != 0),
    {
        self.data & 0b0000_0010 != 0x00
    }

    /// Background display.
    pub fn bit0(&self) -> (r: bool)
        ensures
            r == (self.data & 0x01 != 0),
    {
        self.data & 0b0000_0001 != 0x00
    }
}

/// A shade of the four-colour palette.
#[derive(Clone, Copy, Debug, PartialEq, Eq, Structural)]
pub enum Pixel {
    White,
    LightGray,
    DarkGray,
    Black,
}

impl Pixel {
    /// The shade of a two-bit colour number; any other number is white.
    pub fn from_u8(value: u8) -> (r: Pixel)
        ensures
            r == (if value == 1 {
                Pixel::LightGray
            } else if value == 2 {
                Pixel::DarkGray
            } else if value == 3 {
                Pixel::Black
            } else {
                Pixel::White
            }),
    {
        match value {
            1 => Pixel::LightGray,
            2 => Pixel::DarkGray,
            3 => Pixel::Black,
            _ => Pixel::White,
        }
    }
}

/// LCD status register.
#[derive(Clone, Copy, Debug, PartialEq, Eq, Structural)]
pub struct Stat {
    /// Bit 6: LYC=LY coincidence interrupt enable.
    pub enable_ly_interrupt: bool,
    /// Bit 5: mode 2 (OAM search) interrupt enable.
    pub enable_m2_interrupt: bool,
    /// Bit 4: mode 1 (V-blank) interrupt enable.
    pub enable_m1_interrupt: bool,
    /// Bit 3: mode 0 (H-blank) interrupt enable.
    pub enable_m0_interrupt: bool,
    /// Bits 1-0: the current mode, read only.
    pub mode: u8,
}

impl Stat {
    pub fn new() -> (r: Self)
        ensures
            !r.enable_ly_interrupt,
            !r.enable_m2_interrupt,
            !r.enable_m1_interrupt,
            !r.enable_m0_interrupt,
            r.mode == 0,
    {
        Self {
            enable_ly_interrupt: false,
            enable_m2_interrupt: false,
            enable_m1_interrupt: false,
            enable_m0_interrupt: false,
            mode: 0x00,
        }
    }

    /// The register as read, given whether LY equals LYC.
    pub open spec fn byte(self, coincidence: bool) -> u8 {
        (if self.enable_ly_interrupt { 0x40u8 } else { 0u8 }) | (if self.enable_m2_interrupt {
            0x20u8
        } else {
            0u8
        }) | (if self.enable_m1_interrupt { 0x10u8 } else { 0u8 }) | (if self.enable_m0_interrupt {
            0x08u8
        } else {
            0u8
        }) | (if coincidence { 0x04u8 } else { 0u8 }) | self.mode
    }

    /// The register after `value` is written: only the four enable bits are writable.
    pub open spec fn after_write(self, value: u8) -> Stat {
        Stat {
            enable_ly_interrupt: value & 0x40 != 0,
            enable_m2_interrupt: value & 0x20 != 0,
            enable_m1_interrupt: value & 0x10 != 0,
            enable_m0_interrupt: value & 0x08 != 0,
            mode: self.mode,
        }
    }
}

/// The video unit as seen from the bus: video RAM, sprite attribute memory
/// and the LCD registers.
pub struct PPU {
    oam: [u8; 0xA0],
    vram: [u8; 0x2000],
    lcdc: LCDC,
    stat: Stat,
    bgp: u8,
    obp0: u8,
    obp1: u8,
    ly: u8,
    lyc: u8,
    scx: u8,
    scy: u8,
    wx: u8,
    wy: u8,
}

impl PPU {
    /// All memory and registers zero.
    pub fn new() -> (r: Self)
        ensures
            forall|a: u16| #[trigger] PPU::maps(a) && a != 0xFF41 ==> r.byte(a) == 0,
            r.byte(0xFF41) == 0x04,
    {
        let r = PPU {
            vram: [0u8; 0x2000],
            oam: [0u8; 0xA0],
            lcdc: LCDC::new(),
            stat: Stat::new(),
            bgp: 0,
            obp0: 0,
            obp1: 0,
            ly: 0,
            lyc: 0,
            scx: 0,
            scy: 0,
            wx: 0,
            wy: 0,
        };
        proof {
            assert(0u8 | 0u8 | 0u8 | 0u8 | 0x04u8 | 0u8 == 0x04u8) by (bit_vector);
        }
        r
    }
}

impl PPU {
    /// Whether the video unit answers for `address`.
    pub fn maps_address(address: u16) -> (r: bool)
        ensures
            r == is_video_address(address),
    {
        (VRAM_BEGIN <= address && address <= VRAM_END) || (OAM_BEGIN <= address && address
            <= OAM_END) || (LCD_REGISTERS_BEGIN <= address && address <= LCD_REGISTERS_END)
    }
}

/// Video RAM and sprite attribute memory are plain storage: a read returns the
/// last byte written there, and a write changes no other address.
pub proof fn lemma_video_read_after_write(p: PPU, a: u16, v: u8, b: u16)
    requires
        is_video_address(a),
        is_video_address(b),
        !is_lcd_register(b),
    ensures
        p.after_write(a, v).byte(b) == (if a == b { v } else { p.byte(b) }),
{
}

impl Memory for PPU {
    closed spec fn byte(&self, address: u16) -> u8 {
        if VRAM_BEGIN <= address <= VRAM_END {
            self.vram[address - VRAM_BEGIN]
        } else if OAM_BEGIN <= address <= OAM_END {
            self.oam[address - OAM_BEGIN]
        } else if address == 0xFF40 {
            self.lcdc.data
        } else if address == 0xFF41 {
            self.stat.byte(self.ly == self.lyc)
        } else if address == 0xFF42 {
            self.scy
        } else if address == 0xFF43 {
            self.scx
        } else if address == 0xFF44 {
            self.ly
        } else if address == 0xFF45 {
            self.lyc
        } else if address == 0xFF47 {
            self.bgp
        } else if address == 0xFF48 {
            self.obp0
        } else if address == 0xFF49 {
            self.obp1
        } else if address == 0xFF4A {
            self.wy
        } else if address == 0xFF4B {
            self.wx
        } else {
            0
        }
    }

    closed spec fn after_write(&self, address: u16, value: u8) -> PPU {
        if VRAM_BEGIN <= address <= VRAM_END {
            PPU { vram: spec_array_update(self.vram, address - VRAM_BEGIN, value), ..*self }
        } else if OAM_BEGIN <= address <= OAM_END {
            PPU { oam: spec_array_update(self.oam, address - OAM_BEGIN, value), ..*self }
        } else if address == 0xFF40 {
            PPU { lcdc: LCDC { data: value }, ..*self }
        } else if address == 0xFF41 {
            PPU { stat: self.stat.after_write(value), ..*self }
        } else if address == 0xFF42 {
            PPU { scy: value, ..*self }
        } else if address == 0xFF43 {
            PPU { scx: value, ..*self }
        } else if address == 0xFF45 {
            PPU { lyc: value, ..*self }
        } else if address == 0xFF47 {
            PPU { bgp: value, ..*self }
        } else if address == 0xFF48 {
            PPU { obp0: value, ..*self }
        } else if address == 0xFF49 {
            PPU { obp1: value, ..*self }
        } else if address == 0xFF4A {
            PPU { wy: value, ..*self }
        } else if address == 0xFF4B {
            PPU { wx: value, ..*self }
        } else {
            *self
        }
    }

    open spec fn maps(address: u16) -> bool {
        is_video_address(address)
    }

    fn read_byte(&self, address: u16) -> (r: u8) {
        if VRAM_BEGIN <= address && address <= VRAM_END {
            self.vram[(address - VRAM_BEGIN) as usize]
        } else if OAM_BEGIN <= address && address <= OAM_END {
            self.oam[(address - OAM_BEGIN) as usize]
        } else {
            match address {
                0xFF40 => self.lcdc.data,
                0xFF41 => {
                    let bit6 = if self.stat.enable_ly_interrupt { 0x40u8 } else { 0x00u8 };
                    let bit5 = if self.stat.enable_m2_interrupt { 0x20u8 } else { 0x00u8 };
                    let bit4 = if self.stat.enable_m1_interrupt { 0x10u8 } else { 0x00u8 };
                    let bit3 = if self.stat.enable_m0_interrupt { 0x08u8 } else { 0x00u8 };
                    let bit2 = if self.ly == self.lyc { 0x04u8 } else { 0x00u8 };
                    bit6 | bit5 | bit4 | bit3 | bit2 | self.stat.mode
                },
                0xFF42 => self.scy,
                0xFF43 => self.scx,
                0xFF44 => self.ly,
                0xFF45 => self.lyc,
                // DMA start address: write only.
                0xFF46 => 0,
                0xFF47 => self.bgp,
                0xFF48 => self.obp0,
                0xFF49 => self.obp1,
                0xFF4A => self.wy,
                _ => self.wx,
            }
        }
    }

    fn write_byte(&mut self, address: u16, value: u8) {
        if VRAM_BEGIN <= address && address <= VRAM_END {
            self.vram[(address - VRAM_BEGIN) as usize] = value;
        } else if OAM_BEGIN <= address && address <= OAM_END {
            self.oam[(address - OAM_BEGIN) as usize] = value;
        } else {
            match address {
                0xFF40 => self.lcdc.data = value,
                0xFF41 => {
                    // Mode and LYC=LY are read-only.
                    self.stat.enable_ly_interrupt = value & 0x40 != 0x00;
                    self.stat.enable_m2_interrupt = value & 0x20 != 0x00;
                    self.stat.enable_m1_interrupt = value & 0x10 != 0x00;
                    self.stat.enable_m0_interrupt = value & 0x08 != 0x00;
                },
                0xFF42 => self.scy = value,
                0xFF43 => self.scx = value,
                0xFF45 => self.lyc = value,
                0xFF47 => self.bgp = value,
                0xFF48 => self.obp0 = value,
                0xFF49 => self.obp1 = value,
                0xFF4A => self.wy = value,
                0xFF4B => self.wx = value,
                // LY is read-only; a DMA transfer is not carried out here.
                _ => {},
            }
        }
    }
}

} // verus!
