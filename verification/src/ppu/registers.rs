//! The LCD registers at 0xFF40..=0xFF4B.
use super::timing::LcdMode;
use vstd::prelude::*;

verus! {

/// The LCD registers.
///
/// `stat` holds the interrupt enables in bits 6..3, the LYC-match flag in
/// bit 2 and the mode in bits 1..0.
#[derive(Debug, Clone, Copy)]
pub struct PpuRegisters {
    pub lcdc: u8,
    pub stat: u8,
    pub scy: u8,
    pub scx: u8,
    pub ly: u8,
    pub lyc: u8,
    pub bgp: u8,
    pub obp0: u8,
    pub obp1: u8,
    pub wy: u8,
    pub wx: u8,
}

/// The shade a palette register gives a colour ID: the two bits at position
/// `2 * color_id`.
pub open spec fn palette_color(palette: u8, color_id: u8) -> u8 {
    (palette >> ((color_id * 2) as u8)) & 0x03
}

/// The mode a STAT value holds in its bits 1..0.
pub open spec fn stat_mode(stat: u8) -> LcdMode {
    if stat & 0x03 == 0 {
        LcdMode::HBlank
    } else if stat & 0x03 == 1 {
        LcdMode::VBlank
    } else if stat & 0x03 == 2 {
        LcdMode::OamScan
    } else {
        LcdMode::Drawing
    }
}

/// How the three parts of STAT keep apart: writing the mode, the LYC flag or
/// the interrupt enables changes no other part.
pub proof fn lemma_stat_fields(stat: u8, value: u8, code: u8)
    requires
        code <= 3,
    ensures
        ((stat & 0xFC) | code) & 0x03 == code,
        ((stat & 0xFC) | code) & 0xFC == stat & 0xFC,
        ((stat & 0xFC) | code) & 0x04 == stat & 0x04,
        ((stat & 0xFC) | code) & 0x78 == stat & 0x78,
        (stat | 0x04) & 0x03 == stat & 0x03,
        (stat & 0xFB) & 0x03 == stat & 0x03,
        (stat | 0x04) & 0x78 == stat & 0x78,
        (stat & 0xFB) & 0x78 == stat & 0x78,
        (stat | 0x04) & 0x04 != 0,
        (stat & 0xFB) & 0x04 == 0,
        ((stat & 0x07) | (value & 0x78)) & 0x07 == stat & 0x07,
        ((stat & 0x07) | (value & 0x78)) & 0x03 == stat & 0x03,
        ((stat & 0x07) | (value & 0x78)) & 0x04 == stat & 0x04,
        ((stat & 0x07) | (value & 0x78)) & 0x78 == value & 0x78,
        stat & 0x03 <= 3,
        (stat | 0x80) & 0x80 == 0x80,
{
    assert(((stat & 0xFC) | code) & 0x03 == code) by (bit_vector)
        requires
            code <= 3,
    ;
    assert(((stat & 0xFC) | code) & 0xFC == stat & 0xFC) by (bit_vector)
        requires
            code <= 3,
    ;
    assert(((stat & 0xFC) | code) & 0x04 == stat & 0x04) by (bit_vector)
        requires
            code <= 3,
    ;
    assert(((stat & 0xFC) | code) & 0x78 == stat & 0x78) by (bit_vector)
        requires
            code <= 3,
    ;
    assert((stat | 0x04) & 0x03 == stat & 0x03 && (stat & 0xFB) & 0x03 == stat & 0x03 && (stat
        | 0x04) & 0x78 == stat & 0x78 && (stat & 0xFB) & 0x78 == stat & 0x78 && (stat | 0x04) & 0x04
        != 0 && (stat & 0xFB) & 0x04 == 0 && stat & 0x03 <= 3 && (stat | 0x80) & 0x80 == 0x80)
        by (bit_vector);
    assert(((stat & 0x07) | (value & 0x78)) & 0x07 == stat & 0x07 && ((stat & 0x07) | (value
        & 0x78)) & 0x03 == stat & 0x03 && ((stat & 0x07) | (value & 0x78)) & 0x04 == stat & 0x04
        && ((stat & 0x07) | (value & 0x78)) & 0x78 == value & 0x78) by (bit_vector);
}

impl PpuRegisters {
    /// The registers as the boot program leaves them.
    pub open spec fn boot() -> PpuRegisters {
        PpuRegisters {
            lcdc: 0x91,
            stat: 0x00,
            scy: 0x00,
            scx: 0x00,
            ly: 0x00,
            lyc: 0x00,
            bgp: 0xFC,
            obp0: 0xFF,
            obp1: 0xFF,
            wy: 0x00,
            wx: 0x00,
        }
    }

    /// LCDC bit 7: the display is on.
    pub open spec fn lcd_enabled(self) -> bool {
        self.lcdc & 0x80 != 0
    }

    /// Height of a sprite in lines, from LCDC bit 2.
    pub open spec fn sprite_height(self) -> u8 {
        if self.lcdc & 0x04 != 0 {
            16
        } else {
            8
        }
    }

    /// These registers with the mode in STAT replaced.
    pub open spec fn with_mode(self, mode: LcdMode) -> PpuRegisters {
        PpuRegisters { stat: (self.stat & 0xFC) | mode.code_spec(), ..self }
    }

    /// These registers with the LYC-match flag in STAT replaced.
    pub open spec fn with_lyc_flag(self, value: bool) -> PpuRegisters {
        PpuRegisters { stat: if value { self.stat | 0x04 } else { self.stat & 0xFB }, ..self }
    }

    /// What the processor reads at a register address.
    ///
    /// STAT reads with bit 7 set. While the display is off, LY and the mode
    /// bits of STAT read as zero. An address without a register reads 0xFF.
    pub open spec fn read(self, addr: u16) -> u8 {
        if addr == 0xFF40 {
            self.lcdc
        } else if addr == 0xFF41 {
            if self.lcd_enabled() {
                self.stat | 0x80
            } else {
                (self.stat & 0xFC) | 0x80
            }
        } else if addr == 0xFF42 {
            self.scy
        } else if addr == 0xFF43 {
            self.scx
        } else if addr == 0xFF44 {
            if self.lcd_enabled() {
                self.ly
            } else {
                0
            }
        } else if addr == 0xFF45 {
            self.lyc
        } else if addr == 0xFF47 {
            self.bgp
        } else if addr == 0xFF48 {
            self.obp0
        } else if addr == 0xFF49 {
            self.obp1
        } else if addr == 0xFF4A {
            self.wy
        } else if addr == 0xFF4B {
            self.wx
        } else {
            0xFF
        }
    }

    /// The registers after the processor writes at a register address.
    ///
    /// Of STAT only bits 6..3 are written. LY and addresses without a register
    /// ignore the write.
    pub open spec fn write(self, addr: u16, value: u8) -> PpuRegisters {
        if addr == 0xFF40 {
            PpuRegisters { lcdc: value, ..self }
        } else if addr == 0xFF41 {
            PpuRegisters { stat: (self.stat & 0x07) | (value & 0x78), ..self }
        } else if addr == 0xFF42 {
            PpuRegisters { scy: value, ..self }
        } else if addr == 0xFF43 {
            PpuRegisters { scx: value, ..self }
        } else if addr == 0xFF45 {
            PpuRegisters { lyc: value, ..self }
        } else if addr == 0xFF47 {
            PpuRegisters { bgp: value, ..self }
        } else if addr == 0xFF48 {
            PpuRegisters { obp0: value, ..self }
        } else if addr == 0xFF49 {
            PpuRegisters { obp1: value, ..self }
        } else if addr == 0xFF4A {
            PpuRegisters { wy: value, ..self }
        } else if addr == 0xFF4B {
            PpuRegisters { wx: value, ..self }
        } else {
            self
        }
    }

    /// The registers as the boot program leaves them: display, background and
    /// sprites on, the standard background palette.
    pub fn new() -> (r: Self)
        ensures
            r == Self::boot(),
    {
        Self {
            lcdc: 0x91,
            stat: 0x00,
            scy: 0x00,
            scx: 0x00,
            ly: 0x00,
            lyc: 0x00,
            bgp: 0xFC,
            obp0: 0xFF,
            obp1: 0xFF,
            wy: 0x00,
            wx: 0x00,
        }
    }

    /// Puts the registers back to their boot values.
    pub fn reset(&mut self)
        ensures
            *final(self) == Self::boot(),
    {
        *self = Self::new();
    }

    /// LCDC bit 7: the display is on.
    pub fn is_lcd_enabled(&self) -> (r: bool)
        ensures
            r == self.lcd_enabled(),
    {
        self.lcdc & 0x80 != 0
    }

    /// LCDC bit 6: the window reads the tile map at 0x9C00, else at 0x9800.
    pub fn window_tile_map_area(&self) -> (r: bool)
        ensures
            r == (self.lcdc & 0x40 != 0),
    {
        self.lcdc & 0x40 != 0
    }

    /// LCDC bit 5: the window is on.
    pub fn is_window_enabled(&self) -> (r: bool)
        ensures
            r == (self.lcdc & 0x20 != 0),
    {
        self.lcdc & 0x20 != 0
    }

    /// LCDC bit 4: tile indices are unsigned from 0x8000, else signed around
    /// 0x9000.
    pub fn bg_window_tile_data_area(&self) -> (r: bool)
        ensures
            r == (self.lcdc & 0x10 != 0),
    {
        self.lcdc & 0x10 != 0
    }

    /// LCDC bit 3: the background reads the tile map at 0x9C00, else at
    /// 0x9800.
    pub fn bg_tile_map_area(&self) -> (r: bool)
        ensures
            r == (self.lcdc & 0x08 != 0),
    {
        self.lcdc & 0x08 != 0
    }

    /// LCDC bit 2: sprites are 16 lines high, else 8.
    pub fn sprite_size(&self) -> (r: bool)
        ensures
            r == (self.lcdc & 0x04 != 0),
            self.sprite_height() == (if r { 16u8 } else { 8u8 }),
    {
        self.lcdc & 0x04 != 0
    }

    /// LCDC bit 1: sprites are on.
    pub fn is_sprites_enabled(&self) -> (r: bool)
        ensures
            r == (self.lcdc & 0x02 != 0),
    {
        self.lcdc & 0x02 != 0
    }

    /// LCDC bit 0: background and window are on.
    pub fn is_bg_window_enabled(&self) -> (r: bool)
        ensures
            r == (self.lcdc & 0x01 != 0),
    {
        self.lcdc & 0x01 != 0
    }

    pub fn read_lcdc(&self) -> (r: u8)
        ensures
            r == self.lcdc,
    {
        self.lcdc
    }

    pub fn write_lcdc(&mut self, value: u8)
        ensures
            *final(self) == (PpuRegisters { lcdc: value, ..*old(self) }),
    {
        self.lcdc = value;
    }

    /// STAT bit 6: a match of LY and LYC raises the LCD interrupt.
    pub fn is_lyc_interrupt_enabled(&self) -> (r: bool)
        ensures
            r == (self.stat & 0x40 != 0),
    {
        self.stat & 0x40 != 0
    }

    /// STAT bit 5: entering the OAM scan raises the LCD interrupt.
    pub fn is_oam_interrupt_enabled(&self) -> (r: bool)
        ensures
            r == (self.stat & 0x20 != 0),
    {
        self.stat & 0x20 != 0
    }

    /// STAT bit 4: entering the vertical blank raises the LCD interrupt.
    pub fn is_vblank_interrupt_enabled(&self) -> (r: bool)
        ensures
            r == (self.stat & 0x10 != 0),
    {
        self.stat & 0x10 != 0
    }

    /// STAT bit 3: entering the horizontal blank raises the LCD interrupt.
    pub fn is_hblank_interrupt_enabled(&self) -> (r: bool)
        ensures
            r == (self.stat & 0x08 != 0),
    {
        self.stat & 0x08 != 0
    }

    /// STAT bit 2: LY equalled LYC when the two were last compared.
    pub fn get_lyc_flag(&self) -> (r: bool)
        ensures
            r == (self.stat & 0x04 != 0),
    {
        self.stat & 0x04 != 0
    }

    /// Sets or clears STAT bit 2 and leaves the rest of STAT as it is.
    pub fn set_lyc_flag(&mut self, value: bool)
        ensures
            *final(self) == old(self).with_lyc_flag(value),
            (final(self).stat & 0x04 != 0) == value,
            final(self).stat & 0x03 == old(self).stat & 0x03,
            final(self).stat & 0x78 == old(self).stat & 0x78,
    {
        proof {
            lemma_stat_fields(self.stat, 0, 0);
        }
        if value {
            self.stat = self.stat | 0x04;
        } else {
            self.stat = self.stat & 0xFB;
        }
    }

    /// The mode in STAT bits 1..0.
    pub fn get_mode(&self) -> (r: LcdMode)
        ensures
            r == stat_mode(self.stat),
            r.code_spec() == self.stat & 0x03,
    {
        proof {
            lemma_stat_fields(self.stat, 0, 0);
        }
        let code: u8 = self.stat & 0x03;
        if code == 0 {
            LcdMode::HBlank
        } else if code == 1 {
            LcdMode::VBlank
        } else if code == 2 {
            LcdMode::OamScan
        } else {
            LcdMode::Drawing
        }
    }

    /// Writes the mode into STAT bits 1..0 and leaves the rest of STAT as it
    /// is.
    pub fn set_mode(&mut self, mode: LcdMode)
        ensures
            *final(self) == old(self).with_mode(mode),
            final(self).stat & 0x03 == mode.code_spec(),
            final(self).stat & 0xFC == old(self).stat & 0xFC,
    {
        let code = mode.code();
        proof {
            lemma_stat_fields(self.stat, 0, code);
        }
        self.stat = (self.stat & 0xFC) | code;
    }

    /// Reads STAT as the processor sees it: bit 7 is always set.
    pub fn read_stat(&self) -> (r: u8)
        ensures
            r == self.read(0xFF41),
            r & 0x80 == 0x80,
    {
        if self.lcdc & 0x80 != 0 {
            proof {
                lemma_stat_fields(self.stat, 0, 0);
            }
            self.stat | 0x80
        } else {
            proof {
                lemma_stat_fields(self.stat & 0xFC, 0, 0);
            }
            (self.stat & 0xFC) | 0x80
        }
    }

    /// Writes STAT as the processor does: only the interrupt enables in bits
    /// 6..3 change.
    pub fn write_stat(&mut self, value: u8)
        ensures
            *final(self) == old(self).write(0xFF41, value),
            final(self).stat & 0x07 == old(self).stat & 0x07,
            final(self).stat & 0x03 == old(self).stat & 0x03,
            final(self).stat & 0x78 == value & 0x78,
    {
        proof {
            lemma_stat_fields(self.stat, value, 0);
        }
        self.stat = (self.stat & 0x07) | (value & 0x78);
    }

    pub fn get_scy(&self) -> (r: u8)
        ensures
            r == self.scy,
    {
        self.scy
    }

    pub fn set_scy(&mut self, value: u8)
        ensures
            *final(self) == (PpuRegisters { scy: value, ..*old(self) }),
    {
        self.scy = value;
    }

    pub fn get_scx(&self) -> (r: u8)
        ensures
            r == self.scx,
    {
        self.scx
    }

    pub fn set_scx(&mut self, value: u8)
        ensures
            *final(self) == (PpuRegisters { scx: value, ..*old(self) }),
    {
        self.scx = value;
    }

    /// The scanline the controller is on.
    pub fn get_ly(&self) -> (r: u8)
        ensures
            r == self.ly,
    {
        self.ly
    }

    /// Records the scanline the controller is on. The processor cannot write
    /// LY; the controller does.
    pub fn set_ly(&mut self, value: u8)
        ensures
            *final(self) == (PpuRegisters { ly: value, ..*old(self) }),
    {
        self.ly = value;
    }

    pub fn get_lyc(&self) -> (r: u8)
        ensures
            r == self.lyc,
    {
        self.lyc
    }

    pub fn set_lyc(&mut self, value: u8)
        ensures
            *final(self) == (PpuRegisters { lyc: value, ..*old(self) }),
    {
        self.lyc = value;
    }

    pub fn get_bgp(&self) -> (r: u8)
        ensures
            r == self.bgp,
    {
        self.bgp
    }

    pub fn set_bgp(&mut self, value: u8)
        ensures
            *final(self) == (PpuRegisters { bgp: value, ..*old(self) }),
    {
        self.bgp = value;
    }

    pub fn get_obp0(&self) -> (r: u8)
        ensures
            r == self.obp0,
    {
        self.obp0
    }

    pub fn set_obp0(&mut self, value: u8)
        ensures
            *final(self) == (PpuRegisters { obp0: value, ..*old(self) }),
    {
        self.obp0 = value;
    }

    pub fn get_obp1(&self) -> (r: u8)
        ensures
            r == self.obp1,
    {
        self.obp1
    }

    pub fn set_obp1(&mut self, value: u8)
        ensures
            *final(self) == (PpuRegisters { obp1: value, ..*old(self) }),
    {
        self.obp1 = value;
    }

    /// The shade the background palette gives a colour ID.
    pub fn get_bg_color(&self, color_id: u8) -> (r: u8)
        requires
            color_id <= 3,
        ensures
            r == palette_color(self.bgp, color_id),
            r <= 3,
    {
        shade_of(self.bgp, color_id)
    }

    /// The shade a sprite palette gives a colour ID: OBP0 for palette 0, OBP1
    /// for any other.
    pub fn get_sprite_color(&self, palette: u8, color_id: u8) -> (r: u8)
        requires
            color_id <= 3,
        ensures
            r == palette_color(if palette == 0 { self.obp0 } else { self.obp1 }, color_id),
            r <= 3,
    {
        let palette_data = if palette == 0 { self.obp0 } else { self.obp1 };
        shade_of(palette_data, color_id)
    }

    pub fn get_wy(&self) -> (r: u8)
        ensures
            r == self.wy,
    {
        self.wy
    }

    pub fn set_wy(&mut self, value: u8)
        ensures
            *final(self) == (PpuRegisters { wy: value, ..*old(self) }),
    {
        self.wy = value;
    }

    pub fn get_wx(&self) -> (r: u8)
        ensures
            r == self.wx,
    {
        self.wx
    }

    pub fn set_wx(&mut self, value: u8)
        ensures
            *final(self) == (PpuRegisters { wx: value, ..*old(self) }),
    {
        self.wx = value;
    }

    /// Reads the register at an address in 0xFF40..=0xFF4B as the processor
    /// sees it.
    pub fn read_register(&self, addr: u16) -> (r: u8)
        ensures
            r == self.read(addr),
    {
        match addr {
            0xFF40 => self.read_lcdc(),
            0xFF41 => self.read_stat(),
            0xFF42 => self.get_scy(),
            0xFF43 => self.get_scx(),
            0xFF44 => if self.is_lcd_enabled() {
                self.get_ly()
            } else {
                0
            },
            0xFF45 => self.get_lyc(),
            0xFF47 => self.get_bgp(),
            0xFF48 => self.get_obp0(),
            0xFF49 => self.get_obp1(),
            0xFF4A => self.get_wy(),
            0xFF4B => self.get_wx(),
            _ => 0xFF,
        }
    }

    /// Writes the register at an address in 0xFF40..=0xFF4B as the processor
    /// does.
    pub fn write_register(&mut self, addr: u16, value: u8)
        ensures
            *final(self) == old(self).write(addr, value),
    {
        match addr {
            0xFF40 => self.write_lcdc(value),
            0xFF41 => self.write_stat(value),
            0xFF42 => self.set_scy(value),
            0xFF43 => self.set_scx(value),
            0xFF44 => {},
            0xFF45 => self.set_lyc(value),
            0xFF47 => self.set_bgp(value),
            0xFF48 => self.set_obp0(value),
            0xFF49 => self.set_obp1(value),
            0xFF4A => self.set_wy(value),
            0xFF4B => self.set_wx(value),
            _ => {},
        }
    }
}

/// The shade a palette gives a colour ID.
pub fn shade_of(palette: u8, color_id: u8) -> (r: u8)
    requires
        color_id <= 3,
    ensures
        r == palette_color(palette, color_id),
        r <= 3,
{
    let shift: u8 = color_id * 2;
    let r: u8 = (palette >> shift) & 0x03;
    assert(r <= 3) by (bit_vector)
        requires
            r == (palette >> shift) & 0x03,
    ;
    r
}

} // verus!
