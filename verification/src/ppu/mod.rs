//! The picture-processing unit: a state machine driven by dots that draws one
//! scanline at a time and tells the processor when to look.
pub mod background;
pub mod display;
pub mod registers;
pub mod sprites;
pub mod timing;

use crate::cpu::instructions::Interrupt;
use background::{background_line, window_line_after, window_over, BackgroundRenderer};
use display::{shade_byte, ColorConverter};
use registers::{lemma_stat_fields, palette_color, PpuRegisters};
use sprites::{scan_sprites, sprite_layer, Sprite, SpriteLayer, SpriteRenderer};
pub use timing::LcdMode;
use vstd::prelude::*;

verus! {

/// The interrupts a step of the unit asks for.
#[derive(Debug, Clone, Copy, PartialEq, Eq, Structural)]
pub struct Raised {
    pub vblank: bool,
    pub lcd: bool,
}

impl Raised {
    /// No interrupt.
    pub open spec fn nothing() -> Raised {
        Raised { vblank: false, lcd: false }
    }

    /// The LCD interrupt on a condition.
    pub open spec fn lcd_if(condition: bool) -> Raised {
        Raised { vblank: false, lcd: condition }
    }

    /// The interrupt of higher priority among those asked for.
    pub open spec fn first_spec(self) -> Option<Interrupt> {
        if self.vblank {
            Some(Interrupt::VBlank)
        } else if self.lcd {
            Some(Interrupt::LCD)
        } else {
            None
        }
    }

    /// The interrupt of higher priority among those asked for.
    pub fn first(self) -> (r: Option<Interrupt>)
        ensures
            r == self.first_spec(),
    {
        if self.vblank {
            Some(Interrupt::VBlank)
        } else if self.lcd {
            Some(Interrupt::LCD)
        } else {
            None
        }
    }
}

/// The unit as plain values.
#[verifier::ext_equal]
pub struct PpuState {
    pub mode: LcdMode,
    pub dots: u16,
    pub scanline: u8,
    pub registers: PpuRegisters,
    pub vram: Seq<u8>,
    pub oam: Seq<u8>,
    pub framebuffer: Seq<u8>,
    pub frame_ready: bool,
    pub line_buffer: Seq<u8>,
    pub window_line: u8,
    pub sprites: Seq<Sprite>,
    pub sprite_buffer: Seq<u8>,
    pub sprite_priority: Seq<bool>,
}

/// A scanline put together: where a sprite has put a shade other than 0 that
/// shade, elsewhere the shade the background palette gives the colour below.
pub open spec fn composite(below: Seq<u8>, layer: SpriteLayer, bgp: u8) -> Seq<u8> {
    Seq::new(
        160,
        |x: int|
            if layer.covered[x] && layer.shades[x] != 0 {
                layer.shades[x]
            } else {
                palette_color(bgp, below[x])
            },
    )
}

/// The frame with one scanline written: pixel `x` of line `line` takes the
/// four bytes at `(line * 160 + x) * 4`.
pub open spec fn emit(frame: Seq<u8>, line: u8, shades: Seq<u8>) -> Seq<u8> {
    Seq::new(
        92160,
        |i: int|
            if line * 640 <= i < line * 640 + 640 {
                shade_byte(shades[(i - line * 640) / 4], (i - line * 640) % 4)
            } else {
                frame[i]
            },
    )
}

impl PpuState {
    /// The unit after power-on or a reset: at the start of the OAM scan of
    /// line 0, the registers at their boot values, every memory cleared.
    pub open spec fn power_on() -> PpuState {
        PpuState {
            mode: LcdMode::OamScan,
            dots: 0,
            scanline: 0,
            registers: PpuRegisters::boot().with_mode(LcdMode::OamScan),
            vram: Seq::new(0x2000, |i: int| 0u8),
            oam: Seq::new(0xA0, |i: int| 0u8),
            framebuffer: Seq::new(92160, |i: int| 0u8),
            frame_ready: false,
            line_buffer: Seq::new(160, |i: int| 0u8),
            window_line: 0,
            sprites: Seq::empty(),
            sprite_buffer: Seq::new(160, |i: int| 0u8),
            sprite_priority: Seq::new(160, |i: int| false),
        }
    }

    /// What holds of the unit at every step: the line is within the frame and
    /// shown in LY, the mode is shown in STAT, the vertical blank is the mode
    /// of lines 144 and up, and the dots have not reached the end of the mode.
    #[verifier::opaque]
    pub open spec fn inv(self) -> bool {
        &&& self.scanline <= 153
        &&& self.registers.ly == self.scanline
        &&& self.registers.stat & 0x03 == self.mode.code_spec()
        &&& (self.mode == LcdMode::VBlank) == (self.scanline >= 144)
        &&& self.dots < self.mode.duration()
    }

    /// Whether the processor can reach video RAM: always while the display is
    /// off, else in every mode but Drawing.
    pub open spec fn vram_open(self) -> bool {
        !(self.registers.lcd_enabled() && self.mode == LcdMode::Drawing)
    }

    /// Whether the processor can reach the object attribute memory: always
    /// while the display is off, else in HBlank and VBlank.
    pub open spec fn oam_open(self) -> bool {
        !(self.registers.lcd_enabled() && (self.mode == LcdMode::Drawing || self.mode
            == LcdMode::OamScan))
    }

    /// What the processor reads from video RAM at 0x8000..=0x9FFF: 0xFF while
    /// it cannot reach it.
    pub open spec fn read_vram(self, addr: u16) -> u8 {
        if self.vram_open() && 0x8000 <= addr < 0xA000 {
            self.vram[addr - 0x8000]
        } else {
            0xFF
        }
    }

    /// The unit after the processor writes to video RAM: unchanged while it
    /// cannot reach it.
    pub open spec fn write_vram(self, addr: u16, value: u8) -> PpuState {
        if self.vram_open() && 0x8000 <= addr < 0xA000 {
            PpuState { vram: self.vram.update(addr - 0x8000, value), ..self }
        } else {
            self
        }
    }

    /// What the processor reads from the object attribute memory at
    /// 0xFE00..=0xFE9F: 0xFF while it cannot reach it.
    pub open spec fn read_oam(self, addr: u16) -> u8 {
        if self.oam_open() && 0xFE00 <= addr < 0xFEA0 {
            self.oam[addr - 0xFE00]
        } else {
            0xFF
        }
    }

    /// The unit after the processor writes to the object attribute memory:
    /// unchanged while it cannot reach it.
    pub open spec fn write_oam(self, addr: u16, value: u8) -> PpuState {
        if self.oam_open() && 0xFE00 <= addr < 0xFEA0 {
            PpuState { oam: self.oam.update(addr - 0xFE00, value), ..self }
        } else {
            self
        }
    }

    /// The background of the current line with the window over it.
    pub open spec fn below_sprites(self) -> Seq<u8> {
        window_over(
            self.vram,
            self.registers,
            self.scanline,
            self.window_line,
            background_line(self.vram, self.registers, self.scanline),
        )
    }

    /// The sprite layer of the current line.
    pub open spec fn sprite_layer(self) -> SpriteLayer {
        sprite_layer(self.vram, self.registers, self.sprites, self.scanline, self.below_sprites())
    }

    /// The shades of the current line.
    pub open spec fn line_shades(self) -> Seq<u8> {
        composite(self.below_sprites(), self.sprite_layer(), self.registers.bgp)
    }

    /// The unit after it has drawn the current line into its buffers and into
    /// the frame. Lines 144 and up are not drawn.
    pub open spec fn rendered(self) -> PpuState {
        if self.scanline < 144 {
            PpuState {
                line_buffer: self.line_shades(),
                window_line: window_line_after(self.registers, self.scanline, self.window_line),
                sprite_buffer: self.sprite_layer().shades,
                sprite_priority: self.sprite_layer().covered,
                framebuffer: emit(self.framebuffer, self.scanline, self.line_shades()),
                ..self
            }
        } else {
            self
        }
    }

    /// The unit at the start of a mode.
    pub open spec fn enter(self, mode: LcdMode) -> PpuState {
        PpuState { mode, dots: 0, registers: self.registers.with_mode(mode), ..self }
    }

    /// The unit moved to a line: LY shows the line and STAT bit 2 whether it
    /// equals LYC.
    pub open spec fn at_line(self, line: u8) -> PpuState {
        PpuState {
            scanline: line,
            registers: (PpuRegisters { ly: line, ..self.registers }).with_lyc_flag(
                line == self.registers.lyc,
            ),
            ..self
        }
    }

    /// Whether moving to a line raises the LCD interrupt for a match with
    /// LYC: STAT bit 6 is set and STAT bit 2 goes from clear to set.
    pub open spec fn lyc_raises(self, line: u8) -> bool {
        self.registers.stat & 0x40 != 0 && self.registers.stat & 0x04 == 0 && line
            == self.registers.lyc
    }

    /// The end of the OAM scan: the sprites of the line are found and the
    /// drawing starts.
    pub open spec fn end_oam_scan(self) -> (PpuState, Raised) {
        (
            (PpuState {
                sprites: scan_sprites(self.oam, self.scanline, self.registers.sprite_height()),
                ..self
            }).enter(LcdMode::Drawing),
            Raised::nothing(),
        )
    }

    /// The end of the drawing: the line is drawn and the horizontal blank
    /// starts, with the LCD interrupt if STAT bit 3 asks for it.
    pub open spec fn end_drawing(self) -> (PpuState, Raised) {
        (self.rendered().enter(LcdMode::HBlank), Raised::lcd_if(self.registers.stat & 0x08 != 0))
    }

    /// The end of the horizontal blank: the next line starts, with its OAM
    /// scan, or, after line 143, with the vertical blank, which marks the
    /// frame ready and raises the VBlank interrupt.
    pub open spec fn end_hblank(self) -> (PpuState, Raised) {
        let line = ((self.scanline + 1) % 256) as u8;
        if line >= 144 {
            (
                PpuState { frame_ready: true, ..self.at_line(line).enter(LcdMode::VBlank) },
                Raised {
                    vblank: true,
                    lcd: self.registers.stat & 0x10 != 0 || self.lyc_raises(line),
                },
            )
        } else {
            (
                self.at_line(line).enter(LcdMode::OamScan),
                Raised::lcd_if(self.registers.stat & 0x20 != 0 || self.lyc_raises(line)),
            )
        }
    }

    /// The end of a line of the vertical blank: the next line starts, or,
    /// after line 153, line 0 of a new frame with its OAM scan and the window
    /// at its first line.
    pub open spec fn end_vblank_line(self) -> (PpuState, Raised) {
        if self.scanline >= 153 {
            (
                PpuState { window_line: 0, ..self.at_line(0).enter(LcdMode::OamScan) },
                Raised::lcd_if(self.registers.stat & 0x20 != 0 || self.lyc_raises(0)),
            )
        } else {
            (
                PpuState { dots: 0, ..self.at_line((self.scanline + 1) as u8) },
                Raised::lcd_if(self.lyc_raises((self.scanline + 1) as u8)),
            )
        }
    }

    /// The unit after `cycles` more dots, and the interrupts it raises.
    ///
    /// While the display is off nothing happens. Otherwise the dots are added
    /// to those of the current mode; when they reach the length of the mode,
    /// the mode ends and the dots start again at 0.
    pub open spec fn advance(self, cycles: u8) -> (PpuState, Raised) {
        if !self.registers.lcd_enabled() {
            (self, Raised::nothing())
        } else if self.dots + cycles >= self.mode.duration() {
            match self.mode {
                LcdMode::OamScan => self.end_oam_scan(),
                LcdMode::Drawing => self.end_drawing(),
                LcdMode::HBlank => self.end_hblank(),
                LcdMode::VBlank => self.end_vblank_line(),
            }
        } else {
            (PpuState { dots: (self.dots + cycles) as u16, ..self }, Raised::nothing())
        }
    }
}

/// A step keeps the line within 0..=153, the mode among the four, and the
/// mode bits of STAT equal to the code of the mode.
pub proof fn lemma_advance_keeps_inv(state: PpuState, cycles: u8)
    requires
        state.inv(),
    ensures
        state.advance(cycles).0.inv(),
        state.advance(cycles).0.scanline <= 153,
        state.advance(cycles).0.mode.code_spec() <= 3,
        state.advance(cycles).0.registers.stat & 0x03 == state.advance(cycles).0.mode.code_spec(),
{
    reveal(PpuState::inv);
    let stat = state.registers.stat;
    lemma_stat_fields(stat, 0, 0);
    lemma_stat_fields(stat | 0x04, 0, 0);
    lemma_stat_fields(stat & 0xFB, 0, 0);
    lemma_stat_fields(stat, 0, 1);
    lemma_stat_fields(stat | 0x04, 0, 1);
    lemma_stat_fields(stat & 0xFB, 0, 1);
    lemma_stat_fields(stat, 0, 2);
    lemma_stat_fields(stat | 0x04, 0, 2);
    lemma_stat_fields(stat & 0xFB, 0, 2);
    lemma_stat_fields(stat, 0, 3);
}

/// What the invariant of the unit says: the line is within 0..=153, LY shows
/// it, and bits 1..0 of STAT are the code of the mode.
pub proof fn lemma_inv_meaning(state: PpuState)
    requires
        state.inv(),
    ensures
        state.scanline <= 153,
        state.registers.ly == state.scanline,
        state.mode.code_spec() <= 3,
        state.registers.stat & 0x03 == state.mode.code_spec(),
        state.registers.read(0xFF44) == (if state.registers.lcd_enabled() {
            state.scanline
        } else {
            0
        }),
{
    reveal(PpuState::inv);
}

/// While the unit draws a line, video RAM is closed: a write has no effect
/// and a read returns 0xFF.
pub proof fn lemma_vram_closed_while_drawing(state: PpuState, addr: u16, value: u8)
    requires
        state.registers.lcd_enabled(),
        state.mode == LcdMode::Drawing,
    ensures
        state.write_vram(addr, value) == state,
        state.read_vram(addr) == 0xFF,
{
}

/// While the unit scans the object attribute memory or draws a line, that
/// memory is closed: a write has no effect and a read returns 0xFF.
pub proof fn lemma_oam_closed_while_scanning(state: PpuState, addr: u16, value: u8)
    requires
        state.registers.lcd_enabled(),
        state.mode == LcdMode::OamScan || state.mode == LcdMode::Drawing,
    ensures
        state.write_oam(addr, value) == state,
        state.read_oam(addr) == 0xFF,
{
}

/// While a memory is open, a byte written to it is read back.
pub proof fn lemma_video_memory_round_trip(state: PpuState, addr: u16, value: u8)
    requires
        state.vram.len() == 0x2000,
        state.oam.len() == 0xA0,
    ensures
        state.vram_open() && 0x8000 <= addr < 0xA000 ==> state.write_vram(addr, value).read_vram(
            addr,
        ) == value,
        state.oam_open() && 0xFE00 <= addr < 0xFEA0 ==> state.write_oam(addr, value).read_oam(addr)
            == value,
{
}

/// With the display off a step changes nothing and raises nothing.
pub proof fn lemma_display_off_is_inert(state: PpuState, cycles: u8)
    requires
        !state.registers.lcd_enabled(),
    ensures
        state.advance(cycles) == (state, Raised::nothing()),
{
}

/// A step marks a frame ready only by entering the vertical blank; otherwise
/// it leaves the mark as it was.
pub proof fn lemma_frame_ready_only_at_vblank(state: PpuState, cycles: u8)
    ensures
        state.advance(cycles).0.frame_ready == (state.frame_ready || (state.mode
            == LcdMode::HBlank && state.advance(cycles).0.mode == LcdMode::VBlank)),
        state.advance(cycles).1.vblank == (state.mode == LcdMode::HBlank && state.advance(
            cycles,
        ).0.mode == LcdMode::VBlank),
{
}

/// The picture-processing unit.
pub struct Ppu {
    /// The mode the unit is in.
    pub mode: LcdMode,
    /// Dots spent in the current mode; in the vertical blank, in its current
    /// line.
    pub dots: u16,
    /// The scanline the unit is on, 0..=153.
    pub scanline: u8,
    /// The LCD registers.
    pub registers: PpuRegisters,
    /// Video RAM, 0x8000..=0x9FFF: tile data and the two tile maps.
    pub vram: [u8; 0x2000],
    /// Object attribute memory, 0xFE00..=0xFE9F: forty sprites of four bytes.
    pub oam: [u8; 0xA0],
    /// The frame: 160 x 144 pixels of red, green, blue and alpha.
    pub framebuffer: [u8; 92160],
    /// Set when a frame is complete, cleared when the frame is taken.
    pub frame_ready: bool,
    /// The line being drawn: colour IDs first, shades once it is put together.
    pub line_buffer: [u8; 160],
    /// Draws background and window.
    pub bg_renderer: BackgroundRenderer,
    /// Finds and draws sprites.
    pub sprite_renderer: SpriteRenderer,
    /// Shades of the sprites of the line being drawn.
    pub sprite_buffer: [u8; 160],
    /// Where a sprite has put a pixel on the line being drawn.
    pub sprite_priority_buffer: [bool; 160],
}

impl View for Ppu {
    type V = PpuState;

    open spec fn view(&self) -> PpuState {
        self.state()
    }
}

impl Ppu {
    /// The unit as plain values.
    #[verifier::opaque]
    pub open spec fn state(&self) -> PpuState {
        PpuState {
            mode: self.mode,
            dots: self.dots,
            scanline: self.scanline,
            registers: self.registers,
            vram: self.vram@,
            oam: self.oam@,
            framebuffer: self.framebuffer@,
            frame_ready: self.frame_ready,
            line_buffer: self.line_buffer@,
            window_line: self.bg_renderer.window_internal_line,
            sprites: self.sprite_renderer.line_sprites@,
            sprite_buffer: self.sprite_buffer@,
            sprite_priority: self.sprite_priority_buffer@,
        }
    }
}

impl Ppu {
    /// A unit as it is after power-on.
    pub fn new() -> (r: Self)
        ensures
            r@ == PpuState::power_on(),
            r@.inv(),
    {
        proof {
            reveal(Ppu::state);
            reveal(PpuState::inv);
        }
        let mut registers = PpuRegisters::new();
        registers.set_mode(LcdMode::OamScan);
        let r = Self {
            mode: LcdMode::OamScan,
            dots: 0,
            scanline: 0,
            registers,
            vram: [0u8; 0x2000],
            oam: [0u8; 0xA0],
            framebuffer: [0u8; 92160],
            frame_ready: false,
            line_buffer: [0u8; 160],
            bg_renderer: BackgroundRenderer::new(),
            sprite_renderer: SpriteRenderer::new(),
            sprite_buffer: [0u8; 160],
            sprite_priority_buffer: [false; 160],
        };
        assert(r@ =~~= PpuState::power_on());
        r
    }

    /// Puts the unit back to its state after power-on, whatever it did before.
    pub fn reset(&mut self)
        ensures
            final(self)@ == PpuState::power_on(),
            final(self)@.inv(),
    {
        proof {
            reveal(Ppu::state);
        }
        *self = Self::new();
    }

    /// Advances the unit by `cycles` dots and returns the interrupt it raises,
    /// the VBlank interrupt before the LCD interrupt where it raises both.
    pub fn step(&mut self, cycles: u8) -> (r: Option<Interrupt>)
        ensures
            final(self)@ == old(self)@.advance(cycles).0,
            r == old(self)@.advance(cycles).1.first_spec(),
            old(self)@.inv() ==> final(self)@.inv(),
    {
        proof {
            reveal(Ppu::state);
        }
        self.advance(cycles).first()
    }

    /// Advances the unit by `cycles` dots and returns every interrupt it
    /// raises.
    pub fn advance(&mut self, cycles: u8) -> (r: Raised)
        ensures
            final(self)@ == old(self)@.advance(cycles).0,
            r == old(self)@.advance(cycles).1,
            old(self)@.inv() ==> final(self)@.inv(),
    {
        proof {
            reveal(Ppu::state);
            if self@.inv() {
                lemma_advance_keeps_inv(self@, cycles);
            }
        }
        if !self.registers.is_lcd_enabled() {
            return Raised { vblank: false, lcd: false };
        }
        let total: u32 = self.dots as u32 + cycles as u32;
        if total < self.mode.typical_duration() as u32 {
            self.dots = total as u16;
            assert(self@ =~~= old(self)@.advance(cycles).0);
            return Raised { vblank: false, lcd: false };
        }
        match self.mode {
            LcdMode::OamScan => self.handle_oam_scan(),
            LcdMode::Drawing => self.handle_drawing(),
            LcdMode::HBlank => self.handle_hblank(),
            LcdMode::VBlank => self.handle_vblank(),
        }
    }

    /// Ends the OAM scan.
    pub fn handle_oam_scan(&mut self) -> (r: Raised)
        ensures
            (final(self)@, r) == old(self)@.end_oam_scan(),
    {
        proof {
            reveal(Ppu::state);
        }
        let sprite_height: u8 = if self.registers.sprite_size() { 16 } else { 8 };
        self.sprite_renderer.scan_sprites_for_line(&self.oam, self.scanline, sprite_height);
        self.dots = 0;
        self.mode = LcdMode::Drawing;
        self.registers.set_mode(LcdMode::Drawing);
        assert(self@ =~~= old(self)@.end_oam_scan().0);
        Raised { vblank: false, lcd: false }
    }

    /// Ends the drawing of a line.
    pub fn handle_drawing(&mut self) -> (r: Raised)
        ensures
            (final(self)@, r) == old(self)@.end_drawing(),
    {
        proof {
            reveal(Ppu::state);
        }
        let hblank_interrupt = self.registers.is_hblank_interrupt_enabled();
        self.render_scanline();
        self.dots = 0;
        self.mode = LcdMode::HBlank;
        self.registers.set_mode(LcdMode::HBlank);
        assert(self@ =~~= old(self)@.end_drawing().0);
        Raised { vblank: false, lcd: hblank_interrupt }
    }

    /// Moves the unit to a line and says whether the match with LYC raises the
    /// LCD interrupt.
    fn move_to_line(&mut self, line: u8) -> (r: bool)
        ensures
            final(self)@ == old(self)@.at_line(line),
            r == old(self)@.lyc_raises(line),
    {
        proof {
            reveal(Ppu::state);
        }
        let matches = line == self.registers.get_lyc();
        let raises = self.registers.is_lyc_interrupt_enabled() && !self.registers.get_lyc_flag()
            && matches;
        self.scanline = line;
        self.registers.set_ly(line);
        self.registers.set_lyc_flag(matches);
        assert(self@ =~~= old(self)@.at_line(line));
        raises
    }

    /// Ends the horizontal blank.
    pub fn handle_hblank(&mut self) -> (r: Raised)
        ensures
            (final(self)@, r) == old(self)@.end_hblank(),
    {
        proof {
            reveal(Ppu::state);
        }
        let line = self.scanline.wrapping_add(1);
        let vblank_interrupt = self.registers.is_vblank_interrupt_enabled();
        let oam_interrupt = self.registers.is_oam_interrupt_enabled();
        let lyc_interrupt = self.move_to_line(line);
        self.dots = 0;
        if line >= 144 {
            self.mode = LcdMode::VBlank;
            self.registers.set_mode(LcdMode::VBlank);
            self.frame_ready = true;
            proof {
                lemma_stat_fields(old(self).registers.stat, 0, 0);
            }
            assert(self@ =~~= old(self)@.end_hblank().0);
            Raised { vblank: true, lcd: vblank_interrupt || lyc_interrupt }
        } else {
            self.mode = LcdMode::OamScan;
            self.registers.set_mode(LcdMode::OamScan);
            assert(self@ =~~= old(self)@.end_hblank().0);
            Raised { vblank: false, lcd: oam_interrupt || lyc_interrupt }
        }
    }

    /// Ends a line of the vertical blank.
    pub fn handle_vblank(&mut self) -> (r: Raised)
        ensures
            (final(self)@, r) == old(self)@.end_vblank_line(),
    {
        proof {
            reveal(Ppu::state);
        }
        let oam_interrupt = self.registers.is_oam_interrupt_enabled();
        if self.scanline >= 153 {
            let lyc_interrupt = self.move_to_line(0);
            self.dots = 0;
            self.mode = LcdMode::OamScan;
            self.registers.set_mode(LcdMode::OamScan);
            self.bg_renderer.reset_window_line();
            assert(self@ =~~= old(self)@.end_vblank_line().0);
            Raised { vblank: false, lcd: oam_interrupt || lyc_interrupt }
        } else {
            let lyc_interrupt = self.move_to_line(self.scanline + 1);
            self.dots = 0;
            assert(self@ =~~= old(self)@.end_vblank_line().0);
            Raised { vblank: false, lcd: lyc_interrupt }
        }
    }

    /// Draws the current line into the line buffers and into the frame.
    pub fn render_scanline(&mut self)
        ensures
            final(self)@ == old(self)@.rendered(),
    {
        proof {
            reveal(Ppu::state);
        }
        if self.scanline < 144 {
            self.bg_renderer.render_background_line(
                &self.vram,
                &self.registers,
                self.scanline,
                &mut self.line_buffer,
            );
            self.bg_renderer.render_window_line(
                &self.vram,
                &self.registers,
                self.scanline,
                &mut self.line_buffer,
            );
            self.sprite_renderer.render_sprites_line(
                &self.vram,
                &self.registers,
                self.scanline,
                &self.line_buffer,
                &mut self.sprite_buffer,
                &mut self.sprite_priority_buffer,
            );
            assert(self.line_buffer@ == old(self)@.below_sprites());
            assert((SpriteLayer {
                shades: self.sprite_buffer@,
                covered: self.sprite_priority_buffer@,
            }) == old(self)@.sprite_layer());
            self.composite_line();
            self.copy_line_to_framebuffer();
            assert(self@ =~~= old(self)@.rendered());
        }
    }

    /// Puts the line together: the background through its palette, and over
    /// it the sprites.
    pub fn composite_line(&mut self)
        requires
            forall|x: int| 0 <= x < 160 ==> old(self).line_buffer[x] <= 3,
        ensures
            final(self)@ == (PpuState {
                line_buffer: composite(
                    old(self).line_buffer@,
                    SpriteLayer {
                        shades: old(self).sprite_buffer@,
                        covered: old(self).sprite_priority_buffer@,
                    },
                    old(self).registers.bgp,
                ),
                ..old(self)@
            }),
    {
        proof {
            reveal(Ppu::state);
        }
        let ghost below = self.line_buffer@;
        let mut x: usize = 0;
        while x < 160
            invariant
                x <= 160,
                forall|j: int| x <= j < 160 ==> self.line_buffer[j] == below[j],
                forall|j: int| 0 <= j < 160 ==> below[j] <= 3,
                forall|j: int|
                    0 <= j < x ==> self.line_buffer[j] == composite(
                        below,
                        SpriteLayer {
                            shades: self.sprite_buffer@,
                            covered: self.sprite_priority_buffer@,
                        },
                        self.registers.bgp,
                    )[j],
                self@ == (PpuState { line_buffer: self.line_buffer@, ..old(self)@ }),
            decreases 160 - x,
        {
            proof {
                reveal(Ppu::state);
            }
            if self.sprite_priority_buffer[x] && self.sprite_buffer[x] != 0 {
                self.line_buffer[x] = self.sprite_buffer[x];
            } else {
                assert(self.line_buffer[x as int] == below[x as int]);
                self.line_buffer[x] = self.registers.get_bg_color(self.line_buffer[x]);
            }
            x += 1;
        }
        assert(self.line_buffer@ =~= composite(
            below,
            SpriteLayer { shades: self.sprite_buffer@, covered: self.sprite_priority_buffer@ },
            self.registers.bgp,
        ));
    }

    /// Writes the finished line into the frame, four bytes a pixel.
    pub fn copy_line_to_framebuffer(&mut self)
        requires
            old(self).scanline < 144,
        ensures
            final(self)@ == (PpuState {
                framebuffer: emit(
                    old(self).framebuffer@,
                    old(self).scanline,
                    old(self).line_buffer@,
                ),
                ..old(self)@
            }),
    {
        proof {
            reveal(Ppu::state);
        }
        let line_start: usize = (self.scanline as usize) * 640;
        let ghost frame = self.framebuffer@;
        let mut x: usize = 0;
        while x < 160
            invariant
                x <= 160,
                self.scanline < 144,
                line_start == self.scanline * 640,
                forall|i: int|
                    0 <= i < 92160 && !(line_start <= i < line_start + 4 * x)
                        ==> self.framebuffer[i] == frame[i],
                forall|i: int|
                    line_start <= i < line_start + 4 * x ==> self.framebuffer[i] == emit(
                        frame,
                        self.scanline,
                        self.line_buffer@,
                    )[i],
                self@ == (PpuState { framebuffer: self.framebuffer@, ..old(self)@ }),
            decreases 160 - x,
        {
            proof {
                reveal(Ppu::state);
            }
            let pixel_start: usize = line_start + x * 4;
            let (r, g, b) = ColorConverter::gb_color_to_rgb(self.line_buffer[x]);
            self.framebuffer[pixel_start] = r;
            self.framebuffer[pixel_start + 1] = g;
            self.framebuffer[pixel_start + 2] = b;
            self.framebuffer[pixel_start + 3] = 255;
            x += 1;
        }
        assert(self.framebuffer@ =~= emit(frame, self.scanline, self.line_buffer@));
    }

    /// Whether a complete frame waits to be taken.
    pub fn is_frame_ready(&self) -> (r: bool)
        ensures
            r == self@.frame_ready,
    {
        proof {
            reveal(Ppu::state);
        }
        self.frame_ready
    }

    /// Takes the frame: hands it out and clears the mark that it is ready.
    pub fn get_framebuffer(&mut self) -> (r: &[u8; 92160])
        ensures
            final(self)@ == (PpuState { frame_ready: false, ..old(self)@ }),
            r@ == old(self)@.framebuffer,
            !final(self)@.frame_ready,
            old(self)@.inv() ==> final(self)@.inv(),
    {
        proof {
            reveal(Ppu::state);
            reveal(PpuState::inv);
        }
        self.frame_ready = false;
        &self.framebuffer
    }

    /// Reads video RAM as the processor does.
    pub fn read_vram(&self, addr: u16) -> (r: u8)
        ensures
            r == self@.read_vram(addr),
    {
        proof {
            reveal(Ppu::state);
        }
        if self.registers.is_lcd_enabled() && matches!(self.mode, LcdMode::Drawing) {
            return 0xFF;
        }
        if 0x8000 <= addr && addr < 0xA000 {
            self.vram[(addr - 0x8000) as usize]
        } else {
            0xFF
        }
    }

    /// Writes video RAM as the processor does.
    pub fn write_vram(&mut self, addr: u16, value: u8)
        ensures
            final(self)@ == old(self)@.write_vram(addr, value),
            old(self)@.inv() ==> final(self)@.inv(),
    {
        proof {
            reveal(Ppu::state);
            reveal(PpuState::inv);
        }
        if self.registers.is_lcd_enabled() && matches!(self.mode, LcdMode::Drawing) {
            return ;
        }
        if 0x8000 <= addr && addr < 0xA000 {
            self.vram[(addr - 0x8000) as usize] = value;
        }
        assert(self@ =~~= old(self)@.write_vram(addr, value));
    }

    /// Reads the object attribute memory as the processor does.
    pub fn read_oam(&self, addr: u16) -> (r: u8)
        ensures
            r == self@.read_oam(addr),
    {
        proof {
            reveal(Ppu::state);
        }
        if self.registers.is_lcd_enabled() && matches!(
            self.mode,
            LcdMode::OamScan | LcdMode::Drawing
        ) {
            return 0xFF;
        }
        if 0xFE00 <= addr && addr < 0xFEA0 {
            self.oam[(addr - 0xFE00) as usize]
        } else {
            0xFF
        }
    }

    /// Writes the object attribute memory as the processor does.
    pub fn write_oam(&mut self, addr: u16, value: u8)
        ensures
            final(self)@ == old(self)@.write_oam(addr, value),
            old(self)@.inv() ==> final(self)@.inv(),
    {
        proof {
            reveal(Ppu::state);
            reveal(PpuState::inv);
        }
        if self.registers.is_lcd_enabled() && matches!(
            self.mode,
            LcdMode::OamScan | LcdMode::Drawing
        ) {
            return ;
        }
        if 0xFE00 <= addr && addr < 0xFEA0 {
            self.oam[(addr - 0xFE00) as usize] = value;
        }
        assert(self@ =~~= old(self)@.write_oam(addr, value));
    }

    /// Reads an LCD register as the processor does.
    pub fn read_register(&self, addr: u16) -> (r: u8)
        ensures
            r == self@.registers.read(addr),
    {
        proof {
            reveal(Ppu::state);
        }
        self.registers.read_register(addr)
    }

    /// Writes an LCD register as the processor does.
    pub fn write_register(&mut self, addr: u16, value: u8)
        ensures
            final(self)@ == (PpuState {
                registers: old(self)@.registers.write(addr, value),
                ..old(self)@
            }),
            old(self)@.inv() ==> final(self)@.inv(),
    {
        proof {
            reveal(Ppu::state);
            reveal(PpuState::inv);
            lemma_stat_fields(self.registers.stat, value, 0);
        }
        self.registers.write_register(addr, value);
    }

    /// The scanline the unit is on.
    pub fn get_current_line(&self) -> (r: u8)
        ensures
            r == self@.scanline,
    {
        proof {
            reveal(Ppu::state);
        }
        self.scanline
    }

    /// The mode the unit is in.
    pub fn get_current_mode(&self) -> (r: LcdMode)
        ensures
            r == self@.mode,
    {
        proof {
            reveal(Ppu::state);
        }
        self.mode
    }
}

} // verus!
