//! The background and window layers of a scanline.
//!
//! Both layers are drawn from a 32 x 32 map of tile indices and from tile
//! data of sixteen bytes per tile, two bytes per row.
use super::registers::PpuRegisters;
use vstd::prelude::*;

verus! {

/// Bit `n` of a byte, as 0 or 1.
pub open spec fn bit(byte: u8, n: u8) -> u8 {
    (byte >> n) & 1
}

/// Offset in video RAM of the two bytes of a tile row.
///
/// With unsigned addressing tile 0 starts at offset 0. With signed addressing
/// the index is a signed byte around offset 0x1000: tiles 0..=127 follow it,
/// tiles 128..=255 lie before it.
pub open spec fn tile_row_address(tile_index: u8, row: u8, unsigned: bool) -> int {
    if unsigned {
        tile_index * 16 + row * 2
    } else if tile_index < 128 {
        0x1000 + tile_index * 16 + row * 2
    } else {
        0x1000 - (256 - tile_index) * 16 + row * 2
    }
}

/// The colour ID, 0..=3, of one pixel of a tile. Column 0 is held in bit 7 of
/// the two bytes of its row, column 7 in bit 0; the first byte gives the low
/// bit of the colour, the second the high bit.
pub open spec fn tile_pixel(
    vram: Seq<u8>,
    tile_index: u8,
    column: u8,
    row: u8,
    unsigned: bool,
) -> u8 {
    let at = tile_row_address(tile_index, row, unsigned);
    (bit(vram[at], (7 - column) as u8) + 2 * bit(vram[at + 1], (7 - column) as u8)) as u8
}

/// Offset in video RAM of a tile map: 0x1C00 if the selecting bit is set, else
/// 0x1800.
pub open spec fn tile_map_base(high: bool) -> int {
    if high {
        0x1C00
    } else {
        0x1800
    }
}

/// The colour ID of the background at screen column `x` of a scanline.
///
/// The point of the background map shown there is `(SCX + x, SCY + line)`,
/// both modulo 256. The tile column passed to `tile_pixel` is
/// `7 - (SCX + x) mod 8`.
pub open spec fn background_pixel(vram: Seq<u8>, registers: PpuRegisters, line: u8, x: int) -> u8 {
    let bg_y = (registers.scy + line) % 256;
    let bg_x = (registers.scx + x) % 256;
    let tile_index = vram[tile_map_base(registers.lcdc & 0x08 != 0) + (bg_y / 8) * 32 + bg_x / 8];
    tile_pixel(
        vram,
        tile_index,
        (7 - bg_x % 8) as u8,
        (bg_y % 8) as u8,
        registers.lcdc & 0x10 != 0,
    )
}

/// The background layer of a scanline: colour 0 everywhere while LCDC bit 0
/// is clear.
pub open spec fn background_line(vram: Seq<u8>, registers: PpuRegisters, line: u8) -> Seq<u8> {
    Seq::new(
        160,
        |x: int|
            if registers.lcdc & 0x01 != 0 {
                background_pixel(vram, registers, line, x)
            } else {
                0u8
            },
    )
}

/// Whether the window is shown on a scanline: LCDC bits 0 and 5 are set and
/// the line is at or below WY.
pub open spec fn window_visible(registers: PpuRegisters, line: u8) -> bool {
    registers.lcdc & 0x20 != 0 && registers.lcdc & 0x01 != 0 && line >= registers.wy
}

/// The screen column where the window starts: WX - 7, and 0 for WX below 7.
pub open spec fn window_start(registers: PpuRegisters) -> int {
    if registers.wx < 7 {
        0
    } else {
        registers.wx - 7
    }
}

/// The colour ID of the window at screen column `x`, where `window_line` is
/// the line of the window that is being drawn.
pub open spec fn window_pixel(
    vram: Seq<u8>,
    registers: PpuRegisters,
    window_line: u8,
    x: int,
) -> u8 {
    let window_x = x - window_start(registers);
    let tile_index = vram[tile_map_base(registers.lcdc & 0x40 != 0) + (window_line / 8) * 32
        + window_x / 8];
    tile_pixel(
        vram,
        tile_index,
        (7 - window_x % 8) as u8,
        (window_line % 8) as u8,
        registers.lcdc & 0x10 != 0,
    )
}

/// A scanline after the window is laid over it: from its start column on the
/// window replaces what was there.
pub open spec fn window_over(
    vram: Seq<u8>,
    registers: PpuRegisters,
    line: u8,
    window_line: u8,
    below: Seq<u8>,
) -> Seq<u8> {
    if window_visible(registers, line) {
        Seq::new(
            160,
            |x: int|
                if x >= window_start(registers) {
                    window_pixel(vram, registers, window_line, x)
                } else {
                    below[x]
                },
        )
    } else {
        below
    }
}

/// The window line counter after a scanline: it advances on each scanline on
/// which the window gave at least one pixel.
pub open spec fn window_line_after(registers: PpuRegisters, line: u8, window_line: u8) -> u8 {
    if window_visible(registers, line) && window_start(registers) < 160 {
        ((window_line + 1) % 256) as u8
    } else {
        window_line
    }
}

/// Bit `n` of a byte, as 0 or 1.
pub fn bit_of(byte: u8, n: u8) -> (r: u8)
    requires
        n < 8,
    ensures
        r == bit(byte, n),
        r <= 1,
{
    let r: u8 = (byte >> n) & 1;
    assert(r <= 1) by (bit_vector)
        requires
            r == (byte >> n) & 1,
    ;
    r
}

/// The colour ID of one pixel of a tile.
pub fn pixel_of_tile(
    vram: &[u8; 0x2000],
    tile_index: u8,
    column: u8,
    row: u8,
    unsigned: bool,
) -> (r: u8)
    requires
        column < 8,
        row < 8,
    ensures
        r == tile_pixel(vram@, tile_index, column, row, unsigned),
        r <= 3,
{
    let tile_addr: usize = if unsigned {
        tile_index as usize * 16
    } else if tile_index < 128 {
        0x1000 + tile_index as usize * 16
    } else {
        0x1000 - (256 - tile_index as usize) * 16
    };
    let row_addr: usize = tile_addr + row as usize * 2;
    let low = bit_of(vram[row_addr], 7 - column);
    let high = bit_of(vram[row_addr + 1], 7 - column);
    low + 2 * high
}

/// The colour ID of the background at screen column `x` of a scanline.
pub fn background_pixel_at(vram: &[u8; 0x2000], registers: &PpuRegisters, line: u8, x: u8) -> (r:
    u8)
    ensures
        r == background_pixel(vram@, *registers, line, x as int),
        r <= 3,
{
    let bg_y: u8 = registers.get_scy().wrapping_add(line);
    let bg_x: u8 = registers.get_scx().wrapping_add(x);
    let map_base: usize = if registers.bg_tile_map_area() { 0x1C00 } else { 0x1800 };
    let tile_index = vram[map_base + (bg_y / 8) as usize * 32 + (bg_x / 8) as usize];
    pixel_of_tile(vram, tile_index, 7 - bg_x % 8, bg_y % 8, registers.bg_window_tile_data_area())
}

/// The colour ID of the window at screen column `x`, at or right of the start
/// of the window.
pub fn window_pixel_at(vram: &[u8; 0x2000], registers: &PpuRegisters, window_line: u8, x: u8) -> (r:
    u8)
    requires
        window_start(*registers) <= x < 160,
    ensures
        r == window_pixel(vram@, *registers, window_line, x as int),
        r <= 3,
{
    let wx = registers.get_wx();
    let start: u8 = if wx < 7 { 0 } else { wx - 7 };
    let window_x: u8 = x - start;
    let map_base: usize = if registers.window_tile_map_area() { 0x1C00 } else { 0x1800 };
    let tile_index = vram[map_base + (window_line / 8) as usize * 32 + (window_x / 8) as usize];
    pixel_of_tile(
        vram,
        tile_index,
        7 - window_x % 8,
        window_line % 8,
        registers.bg_window_tile_data_area(),
    )
}

/// Draws the background and the window, and counts the lines of the window.
pub struct BackgroundRenderer {
    /// The line of the window drawn next; counted from the top of the window,
    /// not of the screen.
    pub window_internal_line: u8,
}

impl BackgroundRenderer {
    pub fn new() -> (r: Self)
        ensures
            r.window_internal_line == 0,
    {
        Self { window_internal_line: 0 }
    }

    pub fn reset(&mut self)
        ensures
            final(self).window_internal_line == 0,
    {
        self.window_internal_line = 0;
    }

    /// Draws the background layer of a scanline into `buffer`.
    pub fn render_background_line(
        &self,
        vram: &[u8; 0x2000],
        registers: &PpuRegisters,
        line: u8,
        buffer: &mut [u8; 160],
    )
        ensures
            final(buffer)@ == background_line(vram@, *registers, line),
            forall|x: int| 0 <= x < 160 ==> final(buffer)[x] <= 3,
    {
        let enabled = registers.is_bg_window_enabled();
        let mut x: usize = 0;
        while x < 160
            invariant
                x <= 160,
                enabled == (registers.lcdc & 0x01 != 0),
                forall|j: int|
                    0 <= j < x ==> buffer[j] == (if enabled {
                        background_pixel(vram@, *registers, line, j)
                    } else {
                        0u8
                    }),
                forall|j: int| 0 <= j < x ==> buffer[j] <= 3,
            decreases 160 - x,
        {
            buffer[x] = if enabled {
                background_pixel_at(vram, registers, line, x as u8)
            } else {
                0
            };
            x += 1;
        }
        assert(buffer@ =~= background_line(vram@, *registers, line));
    }

    /// Lays the window over a scanline in `buffer` and, where the window gave
    /// a pixel, advances the window line counter.
    pub fn render_window_line(
        &mut self,
        vram: &[u8; 0x2000],
        registers: &PpuRegisters,
        line: u8,
        buffer: &mut [u8; 160],
    )
        ensures
            final(buffer)@ == window_over(
                vram@,
                *registers,
                line,
                old(self).window_internal_line,
                old(buffer)@,
            ),
            final(self).window_internal_line == window_line_after(
                *registers,
                line,
                old(self).window_internal_line,
            ),
            (forall|x: int| 0 <= x < 160 ==> old(buffer)[x] <= 3) ==> (forall|x: int|
                0 <= x < 160 ==> final(buffer)[x] <= 3),
    {
        if !registers.is_window_enabled() || !registers.is_bg_window_enabled() {
            return ;
        }
        if line < registers.get_wy() {
            return ;
        }
        let wx = registers.get_wx();
        let start: usize = if wx < 7 { 0 } else { (wx - 7) as usize };
        let window_line = self.window_internal_line;
        let ghost below = buffer@;
        let mut x: usize = start;
        while x < 160
            invariant
                start <= x,
                x <= 160 || x == start,
                start == window_start(*registers),
                window_visible(*registers, line),
                forall|j: int|
                    start <= j < x ==> buffer[j] == window_pixel(
                        vram@,
                        *registers,
                        window_line,
                        j,
                    ),
                forall|j: int| 0 <= j < 160 && !(start <= j < x) ==> buffer[j] == below[j],
                forall|j: int| start <= j < x ==> buffer[j] <= 3,
            decreases 160 - x,
        {
            buffer[x] = window_pixel_at(vram, registers, window_line, x as u8);
            x += 1;
        }
        assert(buffer@ =~= window_over(vram@, *registers, line, window_line, below));
        if start < 160 {
            self.window_internal_line = window_line.wrapping_add(1);
        }
    }

    /// The colour ID of one pixel of a tile.
    pub fn get_tile_pixel(
        &self,
        vram: &[u8; 0x2000],
        tile_index: u8,
        pixel_x: u8,
        pixel_y: u8,
        tile_data_area: bool,
    ) -> (r: u8)
        requires
            pixel_x < 8,
            pixel_y < 8,
        ensures
            r == tile_pixel(vram@, tile_index, pixel_x, pixel_y, tile_data_area),
            r <= 3,
    {
        pixel_of_tile(vram, tile_index, pixel_x, pixel_y, tile_data_area)
    }

    /// Starts the window over at its first line, as each frame does.
    pub fn reset_window_line(&mut self)
        ensures
            final(self).window_internal_line == 0,
    {
        self.window_internal_line = 0;
    }
}

} // verus!
