//! The modes of the LCD controller and the dot counts of a scanline.
use vstd::prelude::*;

verus! {

/// The four modes the LCD controller cycles through. Their numeric codes, as
/// the STAT register shows them, are 0, 1, 2 and 3 in the order written here.
#[derive(Debug, Clone, Copy, PartialEq, Eq, Structural)]
pub enum LcdMode {
    /// Mode 0: the rest of a scanline after its pixels are drawn.
    HBlank,
    /// Mode 1: the ten scanlines after the visible ones.
    VBlank,
    /// Mode 2: the search through the object attribute memory.
    OamScan,
    /// Mode 3: the drawing of a scanline.
    Drawing,
}

impl LcdMode {
    /// The code of this mode in bits 1..0 of STAT.
    pub open spec fn code_spec(self) -> u8 {
        match self {
            LcdMode::HBlank => 0,
            LcdMode::VBlank => 1,
            LcdMode::OamScan => 2,
            LcdMode::Drawing => 3,
        }
    }

    /// Dots after which this mode ends: for VBlank, the dots of one scanline.
    pub open spec fn duration(self) -> u16 {
        match self {
            LcdMode::HBlank => 204,
            LcdMode::VBlank => 456,
            LcdMode::OamScan => 80,
            LcdMode::Drawing => 172,
        }
    }

    /// The code of this mode in bits 1..0 of STAT.
    pub fn code(&self) -> (r: u8)
        ensures
            r == self.code_spec(),
            r <= 3,
    {
        match self {
            LcdMode::HBlank => 0,
            LcdMode::VBlank => 1,
            LcdMode::OamScan => 2,
            LcdMode::Drawing => 3,
        }
    }

    /// Dots after which this mode ends: for VBlank, the dots of one scanline.
    pub fn typical_duration(&self) -> (r: u16)
        ensures
            r == self.duration(),
    {
        match self {
            LcdMode::HBlank => 204,
            LcdMode::VBlank => 456,
            LcdMode::OamScan => 80,
            LcdMode::Drawing => 172,
        }
    }

    /// Whether the processor can reach video RAM in this mode: in every mode
    /// but Drawing.
    pub fn can_access_vram(&self) -> (r: bool)
        ensures
            r == (*self != LcdMode::Drawing),
    {
        !matches!(self, LcdMode::Drawing)
    }

    /// Whether the processor can reach the object attribute memory in this
    /// mode: in HBlank and VBlank only.
    pub fn can_access_oam(&self) -> (r: bool)
        ensures
            r == (*self == LcdMode::HBlank || *self == LcdMode::VBlank),
    {
        matches!(self, LcdMode::HBlank | LcdMode::VBlank)
    }

    /// The mode that follows this one, where `scanline` is the line the
    /// controller is on once this mode has ended.
    pub fn next_mode(&self, scanline: u8) -> (r: LcdMode)
        ensures
            r == match *self {
                LcdMode::OamScan => LcdMode::Drawing,
                LcdMode::Drawing => LcdMode::HBlank,
                LcdMode::HBlank => if scanline >= 144 {
                    LcdMode::VBlank
                } else {
                    LcdMode::OamScan
                },
                LcdMode::VBlank => if scanline >= 154 {
                    LcdMode::OamScan
                } else {
                    LcdMode::VBlank
                },
            },
    {
        match self {
            LcdMode::OamScan => LcdMode::Drawing,
            LcdMode::Drawing => LcdMode::HBlank,
            LcdMode::HBlank => {
                if scanline >= 144 {
                    LcdMode::VBlank
                } else {
                    LcdMode::OamScan
                }
            },
            LcdMode::VBlank => {
                if scanline >= 154 {
                    LcdMode::OamScan
                } else {
                    LcdMode::VBlank
                }
            },
        }
    }
}

/// The dot counts of the display.
pub struct PpuTiming;

impl PpuTiming {
    /// Dots of one scanline.
    pub const DOTS_PER_SCANLINE: u16 = 456;

    /// Scanlines of one frame.
    pub const SCANLINES_PER_FRAME: u8 = 154;

    /// Visible scanlines, 0..=143.
    pub const VISIBLE_SCANLINES: u8 = 144;

    /// Scanlines of the vertical blank, 144..=153.
    pub const VBLANK_SCANLINES: u8 = 10;

    /// Dots of one frame.
    pub const DOTS_PER_FRAME: u32 = 70224;

    /// Dots of the OAM scan.
    pub const OAM_SCAN_DOTS: u16 = 80;

    /// Fewest dots the drawing of a scanline takes.
    pub const DRAWING_MIN_DOTS: u16 = 172;

    /// Most dots the drawing of a scanline takes.
    pub const DRAWING_MAX_DOTS: u16 = 289;

    /// Fewest dots of a horizontal blank.
    pub const HBLANK_MIN_DOTS: u16 = 87;

    /// Most dots of a horizontal blank.
    pub const HBLANK_MAX_DOTS: u16 = 204;

    /// Dots of the vertical blank.
    pub const VBLANK_TOTAL_DOTS: u32 = 4560;

    /// Pixels of a scanline.
    pub const SCREEN_WIDTH: usize = 160;

    /// Scanlines shown.
    pub const SCREEN_HEIGHT: usize = 144;

    /// Dots the drawing of a scanline takes. The penalties of scrolling,
    /// window and sprites are not modelled: every scanline takes the minimum.
    pub fn calculate_drawing_duration(
        _scroll_x: u8,
        _window_enabled: bool,
        _sprite_count: u8,
    ) -> (r: u16)
        ensures
            r == 172,
    {
        172
    }

    /// Dots left for the horizontal blank when the drawing took
    /// `drawing_duration` dots: a scanline has 456, the OAM scan takes 80.
    pub fn calculate_hblank_duration(drawing_duration: u16) -> (r: u16)
        requires
            drawing_duration <= 376,
        ensures
            r == 456 - 80 - drawing_duration,
    {
        456 - 80 - drawing_duration
    }
}

} // verus!
