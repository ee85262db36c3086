//! What a finished frame is handed to, and the colours of the four shades.
use crate::cpu::instructions::Instruction;
use crate::cpu::Cpu;
use crate::text::{
    append_decimal, append_repeated, append_upper_hex4, decimal, push_char, repeated, upper_hex4,
};
use std::collections::VecDeque;
use vstd::prelude::*;

verus! {

/// Bytes of a frame: 160 x 144 pixels of four bytes each.
pub const FRAME_BYTES: usize = 92160;

/// Red, green and blue of a shade on the green screen of the machine. Only
/// the two low bits of the shade count.
pub open spec fn shade_rgb(shade: u8) -> (u8, u8, u8) {
    if shade % 4 == 0 {
        (155u8, 188u8, 15u8)
    } else if shade % 4 == 1 {
        (139u8, 172u8, 15u8)
    } else if shade % 4 == 2 {
        (48u8, 98u8, 48u8)
    } else {
        (15u8, 56u8, 15u8)
    }
}

/// Byte `k` of the four bytes of a pixel of some shade: red, green, blue, and
/// an alpha of 255.
pub open spec fn shade_byte(shade: u8, k: int) -> u8 {
    if k == 0 {
        shade_rgb(shade).0
    } else if k == 1 {
        shade_rgb(shade).1
    } else if k == 2 {
        shade_rgb(shade).2
    } else {
        255
    }
}

/// The grey of a shade, from 255 for the lightest to 0 for the darkest.
pub open spec fn shade_gray(shade: u8) -> u8 {
    if shade % 4 == 0 {
        255
    } else if shade % 4 == 1 {
        170
    } else if shade % 4 == 2 {
        85
    } else {
        0
    }
}

/// The mean of the three colour parts of a pixel.
pub open spec fn brightness(r: u8, g: u8, b: u8) -> int {
    (r + g + b) / 3
}

/// How bright a pixel is, in four steps from 0 for the darkest quarter to 3
/// for the lightest.
pub open spec fn brightness_step(r: u8, g: u8, b: u8) -> int {
    brightness(r, g, b) / 64
}

/// Conversions from shades to colours.
pub struct ColorConverter;

impl ColorConverter {
    /// Red, green and blue of a shade.
    pub fn gb_color_to_rgb(color_index: u8) -> (r: (u8, u8, u8))
        ensures
            r == shade_rgb(color_index),
    {
        match color_index % 4 {
            0 => (155, 188, 15),
            1 => (139, 172, 15),
            2 => (48, 98, 48),
            _ => (15, 56, 15),
        }
    }

    /// The grey of a shade.
    pub fn gb_color_to_gray(color_index: u8) -> (r: u8)
        ensures
            r == shade_gray(color_index),
    {
        match color_index % 4 {
            0 => 255,
            1 => 170,
            2 => 85,
            _ => 0,
        }
    }

    /// The four bytes of a pixel of a shade.
    pub fn gb_color_to_rgba(color_index: u8) -> (r: [u8; 4])
        ensures
            forall|k: int| 0 <= k < 4 ==> r[k] == shade_byte(color_index, k),
    {
        let (r, g, b) = Self::gb_color_to_rgb(color_index);
        [r, g, b, 255]
    }
}

/// Something that shows finished frames.
pub trait Display {
    /// Shows a frame.
    fn present_frame(&mut self, framebuffer: &[u8; 92160]);

    /// Whether the display can take a frame. Every display can, at any time:
    /// the machine never waits for one.
    fn is_ready(&self) -> (r: bool)
        ensures
            r,
    {
        true
    }

    /// The name of this display.
    fn name(&self) -> &str;
}

/// The character that stands for a pixel on a terminal without colour, from a
/// full block for the darkest quarter to a light shade for the lightest.
pub open spec fn ascii_shade(r: u8, g: u8, b: u8) -> char {
    if brightness_step(r, g, b) == 0 {
        '\u{2588}'
    } else if brightness_step(r, g, b) == 1 {
        '\u{2593}'
    } else if brightness_step(r, g, b) == 2 {
        '\u{2592}'
    } else {
        '\u{2591}'
    }
}

/// The escape sequence that stands for a pixel on a terminal with colour: two
/// spaces on one of four greys of the 256-colour palette.
pub open spec fn ansi_shade(r: u8, g: u8, b: u8) -> Seq<char> {
    if brightness_step(r, g, b) == 0 {
        "\x1b[48;5;232m  \x1b[0m"@
    } else if brightness_step(r, g, b) == 1 {
        "\x1b[48;5;240m  \x1b[0m"@
    } else if brightness_step(r, g, b) == 2 {
        "\x1b[48;5;248m  \x1b[0m"@
    } else {
        "\x1b[48;5;255m  \x1b[0m"@
    }
}

/// A display for a text terminal. It turns pixels into characters or escape
/// sequences and counts the frames it is given; writing to the terminal is
/// left to the caller.
pub struct TerminalDisplay {
    /// Whether pixels are shown as coloured blocks rather than characters.
    pub use_color: bool,
    /// Number of frames given to this display.
    pub frame_count: u64,
}

impl TerminalDisplay {
    pub fn new(use_color: bool) -> (r: Self)
        ensures
            r.use_color == use_color,
            r.frame_count == 0,
    {
        Self { use_color, frame_count: 0 }
    }

    /// The character that stands for a pixel.
    pub fn pixel_to_ascii(&self, r: u8, g: u8, b: u8) -> (c: char)
        ensures
            c == ascii_shade(r, g, b),
    {
        let gray: u16 = (r as u16 + g as u16 + b as u16) / 3;
        if gray < 64 {
            '\u{2588}'
        } else if gray < 128 {
            '\u{2593}'
        } else if gray < 192 {
            '\u{2592}'
        } else {
            '\u{2591}'
        }
    }

    /// The escape sequence that stands for a pixel.
    pub fn pixel_to_ansi(&self, r: u8, g: u8, b: u8) -> (text: String)
        ensures
            text@ == ansi_shade(r, g, b),
    {
        let gray: u16 = (r as u16 + g as u16 + b as u16) / 3;
        if gray < 64 {
            "\x1b[48;5;232m  \x1b[0m".to_string()
        } else if gray < 128 {
            "\x1b[48;5;240m  \x1b[0m".to_string()
        } else if gray < 192 {
            "\x1b[48;5;248m  \x1b[0m".to_string()
        } else {
            "\x1b[48;5;255m  \x1b[0m".to_string()
        }
    }
}

/// What the terminal shows for the pixel with the given index in the frame.
pub open spec fn pixel_text(frame: Seq<u8>, use_color: bool, index: int) -> Seq<char> {
    if use_color {
        ansi_shade(frame[index * 4], frame[index * 4 + 1], frame[index * 4 + 2])
    } else {
        seq![ascii_shade(frame[index * 4], frame[index * 4 + 1], frame[index * 4 + 2])]
    }
}

/// What the terminal shows for `count` pixels from the one with index `from`.
pub open spec fn pixels_text(frame: Seq<u8>, use_color: bool, from: int, count: int) -> Seq<char>
    decreases count,
{
    if count <= 0 {
        Seq::empty()
    } else {
        pixels_text(frame, use_color, from, count - 1) + pixel_text(
            frame,
            use_color,
            from + count - 1,
        )
    }
}

/// What the terminal shows for the first `rows` lines of a frame: each line
/// between two vertical bars.
pub open spec fn rows_text(frame: Seq<u8>, use_color: bool, rows: int) -> Seq<char>
    decreases rows,
{
    if rows <= 0 {
        Seq::empty()
    } else {
        rows_text(frame, use_color, rows - 1) + "\u{2502}"@ + pixels_text(
            frame,
            use_color,
            (rows - 1) * 160,
            160,
        ) + "\u{2502}\n"@
    }
}

/// Characters a line of pixels takes on the terminal: two a pixel with
/// colour, one without.
pub open spec fn line_width(use_color: bool) -> int {
    if use_color {
        320
    } else {
        160
    }
}

/// What the terminal shows for a frame: the sequence that clears the screen
/// and homes the cursor, a title with the number of the frame, and the 144
/// lines in a box.
pub open spec fn frame_text(frame: Seq<u8>, use_color: bool, frame_count: u64) -> Seq<char> {
    "\x1b[2J\x1b[H"@ + "Game Boy Display - Frame "@ + decimal(frame_count as nat) + "\n\u{250c}"@
        + repeated('\u{2500}', line_width(use_color)) + "\u{2510}\n"@ + rows_text(
        frame,
        use_color,
        144,
    ) + "\u{2514}"@ + repeated('\u{2500}', line_width(use_color)) + "\u{2518}\n\n"@
}

impl TerminalDisplay {
    /// The text that shows a frame on the terminal.
    pub fn render_frame(&self, framebuffer: &[u8; 92160]) -> (text: String)
        ensures
            text@ == frame_text(framebuffer@, self.use_color, self.frame_count),
    {
        let width: usize = if self.use_color { 320 } else { 160 };
        let mut text = "\x1b[2J\x1b[H".to_string();
        text.append("Game Boy Display - Frame ");
        append_decimal(&mut text, self.frame_count);
        text.append("\n\u{250c}");
        append_repeated(&mut text, '\u{2500}', width);
        text.append("\u{2510}\n");
        let ghost head = text@;
        let mut y: usize = 0;
        while y < 144
            invariant
                y <= 144,
                text@ == head + rows_text(framebuffer@, self.use_color, y as int),
            decreases 144 - y,
        {
            let ghost above = text@;
            text.append("\u{2502}");
            let ghost row_start = text@;
            let mut x: usize = 0;
            while x < 160
                invariant
                    x <= 160,
                    y < 144,
                    text@ == row_start + pixels_text(
                        framebuffer@,
                        self.use_color,
                        y * 160,
                        x as int,
                    ),
                decreases 160 - x,
            {
                let at: usize = (y * 160 + x) * 4;
                let r = framebuffer[at];
                let g = framebuffer[at + 1];
                let b = framebuffer[at + 2];
                if self.use_color {
                    let shade = self.pixel_to_ansi(r, g, b);
                    text.append(shade.as_str());
                } else {
                    push_char(&mut text, self.pixel_to_ascii(r, g, b));
                }
                x += 1;
                assert(text@ =~= row_start + pixels_text(
                    framebuffer@,
                    self.use_color,
                    y * 160,
                    x as int,
                ));
            }
            text.append("\u{2502}\n");
            y += 1;
            assert(text@ =~= head + rows_text(framebuffer@, self.use_color, y as int));
        }
        text.append("\u{2514}");
        append_repeated(&mut text, '\u{2500}', width);
        text.append("\u{2518}\n\n");
        assert(text@ =~= frame_text(framebuffer@, self.use_color, self.frame_count));
        text
    }
}

impl Display for TerminalDisplay {
    /// Counts the frame; the count wraps around after `u64::MAX` frames.
    fn present_frame(&mut self, _framebuffer: &[u8; 92160])
        ensures
            final(self).frame_count == (old(self).frame_count + 1) % 0x1_0000_0000_0000_0000,
            final(self).use_color == old(self).use_color,
    {
        self.frame_count = self.frame_count.wrapping_add(1);
    }

    fn name(&self) -> (r: &str)
        ensures
            r@ == "Terminal Display"@,
    {
        "Terminal Display"
    }
}

/// A display that drops every frame.
pub struct NullDisplay;

impl Display for NullDisplay {
    fn present_frame(&mut self, _framebuffer: &[u8; 92160]) {
    }

    fn name(&self) -> (r: &str)
        ensures
            r@ == "Null Display"@,
    {
        "Null Display"
    }
}

/// A display that only counts the frames it is given.
pub struct DebugDisplay {
    pub frame_count: u64,
}

impl DebugDisplay {
    pub fn new() -> (r: Self)
        ensures
            r.frame_count == 0,
    {
        Self { frame_count: 0 }
    }

    /// Number of frames given to this display.
    pub fn frame_count(&self) -> (r: u64)
        ensures
            r == self.frame_count,
    {
        self.frame_count
    }
}

impl Display for DebugDisplay {
    /// Counts the frame; the count wraps around after `u64::MAX` frames.
    fn present_frame(&mut self, _framebuffer: &[u8; 92160])
        ensures
            final(self).frame_count == (old(self).frame_count + 1) % 0x1_0000_0000_0000_0000,
    {
        self.frame_count = self.frame_count.wrapping_add(1);
    }

    fn name(&self) -> (r: &str)
        ensures
            r@ == "Debug Display"@,
    {
        "Debug Display"
    }
}

/// Entries the history of a debugger keeps.
pub const HISTORY_LIMIT: usize = 100;

/// A snapshot of the processor and of the whole address space, for a
/// debugger.
pub struct CpuDebugState {
    pub pc: u16,
    pub sp: u16,
    pub af: u16,
    pub bc: u16,
    pub de: u16,
    pub hl: u16,
    /// The flags Z, N, H and C.
    pub flags: (bool, bool, bool, bool),
    /// The instruction under way, in words.
    pub current_instruction: String,
    /// The instructions seen, the newest last, each after the program counter
    /// at the time; no more than `HISTORY_LIMIT`.
    pub instruction_history: VecDeque<String>,
    /// The byte at every address.
    pub memory: [u8; 0x10000],
}

/// A line of the history of a debugger: the program counter in four
/// hexadecimal digits, a colon, and the instruction in words.
pub open spec fn history_line(pc: u16, instruction: Instruction) -> Seq<char> {
    upper_hex4(pc) + ": "@ + instruction.mnemonic_spec()
}

/// Whether a history is another with one more line at its end, and without
/// its oldest line if it was full.
pub open spec fn history_extended(
    before: Seq<String>,
    after: Seq<String>,
    line: Seq<char>,
) -> bool {
    let dropped: int = if before.len() < HISTORY_LIMIT {
        0
    } else {
        1
    };
    &&& after.len() == before.len() + 1 - dropped
    &&& after.last()@ == line
    &&& forall|i: int| 0 <= i < after.len() - 1 ==> after[i] == before[i + dropped]
}

impl Default for CpuDebugState {
    /// A snapshot with every value zero, the instruction NOP and no history.
    fn default() -> (r: Self)
        ensures
            r.pc == 0 && r.sp == 0 && r.af == 0 && r.bc == 0 && r.de == 0 && r.hl == 0,
            r.flags == (false, false, false, false),
            r.current_instruction@ == "NOP"@,
            r.instruction_history@.len() == 0,
            forall|i: int| 0 <= i < 0x10000 ==> r.memory[i] == 0,
    {
        Self {
            pc: 0,
            sp: 0,
            af: 0,
            bc: 0,
            de: 0,
            hl: 0,
            flags: (false, false, false, false),
            current_instruction: "NOP".to_string(),
            instruction_history: VecDeque::with_capacity(HISTORY_LIMIT),
            memory: [0u8; 0x10000],
        }
    }
}

/// A display that keeps the last frame and a snapshot of the processor for
/// the windows of a debugger.
pub struct GuiDisplay {
    pub framebuffer: [u8; 92160],
    pub cpu_state: CpuDebugState,
    pub frame_count: u64,
}

impl GuiDisplay {
    pub fn new() -> (r: Self)
        ensures
            r.frame_count == 0,
            r.cpu_state.instruction_history@.len() == 0,
            forall|i: int| 0 <= i < 92160 ==> r.framebuffer[i] == 0,
    {
        Self { framebuffer: [0u8; 92160], cpu_state: CpuDebugState::default(), frame_count: 0 }
    }

    /// Takes a snapshot of the processor: its registers, the instruction
    /// under way, one more line of history, and the byte at every address.
    /// The oldest line of a full history is dropped.
    pub fn update_cpu_state(&mut self, cpu: &Cpu)
        requires
            old(self).cpu_state.instruction_history@.len() <= HISTORY_LIMIT,
        ensures
            final(self).cpu_state.pc == cpu@.program_counter,
            final(self).cpu_state.sp == cpu@.stack_pointer,
            final(self).cpu_state.af == cpu@.register.af(),
            final(self).cpu_state.bc == cpu@.register.bc(),
            final(self).cpu_state.de == cpu@.register.de(),
            final(self).cpu_state.hl == cpu@.register.hl(),
            final(self).cpu_state.flags == (
                cpu@.register.zero,
                cpu@.register.subtract,
                cpu@.register.half_carry,
                cpu@.register.carry,
            ),
            final(self).cpu_state.current_instruction@ == cpu@.instruction.mnemonic_spec(),
            forall|addr: int|
                0 <= addr < 0x10000 ==> final(self).cpu_state.memory[addr] == cpu@.read(
                    addr as u16,
                ),
            history_extended(
                old(self).cpu_state.instruction_history@,
                final(self).cpu_state.instruction_history@,
                history_line(cpu@.program_counter, cpu@.instruction),
            ),
            final(self).framebuffer == old(self).framebuffer,
            final(self).frame_count == old(self).frame_count,
    {
        self.cpu_state.pc = cpu.get_pc();
        self.cpu_state.sp = cpu.get_sp();
        self.cpu_state.af = cpu.get_af();
        self.cpu_state.bc = cpu.get_bc();
        self.cpu_state.de = cpu.get_de();
        self.cpu_state.hl = cpu.get_hl();
        self.cpu_state.flags = cpu.get_flags();
        let instruction = cpu.get_current_instruction();
        self.cpu_state.current_instruction = instruction.mnemonic();
        let mut line = String::new();
        append_upper_hex4(&mut line, cpu.get_pc());
        line.append(": ");
        let words = instruction.mnemonic();
        line.append(words.as_str());
        assert(line@ =~= history_line(cpu@.program_counter, cpu@.instruction));
        self.cpu_state.instruction_history.push_back(line);
        if self.cpu_state.instruction_history.len() > HISTORY_LIMIT {
            self.cpu_state.instruction_history.pop_front();
        }
        let mut addr: usize = 0;
        while addr < 0x10000
            invariant
                addr <= 0x10000,
                forall|i: int| 0 <= i < addr ==> self.cpu_state.memory[i] == cpu@.read(i as u16),
                self.cpu_state.pc == cpu@.program_counter,
                self.cpu_state.sp == cpu@.stack_pointer,
                self.cpu_state.af == cpu@.register.af(),
                self.cpu_state.bc == cpu@.register.bc(),
                self.cpu_state.de == cpu@.register.de(),
                self.cpu_state.hl == cpu@.register.hl(),
                self.cpu_state.flags == (
                    cpu@.register.zero,
                    cpu@.register.subtract,
                    cpu@.register.half_carry,
                    cpu@.register.carry,
                ),
                self.cpu_state.current_instruction@ == cpu@.instruction.mnemonic_spec(),
                history_extended(
                    old(self).cpu_state.instruction_history@,
                    self.cpu_state.instruction_history@,
                    history_line(cpu@.program_counter, cpu@.instruction),
                ),
                self.framebuffer == old(self).framebuffer,
                self.frame_count == old(self).frame_count,
            decreases 0x10000 - addr,
        {
            self.cpu_state.memory[addr] = cpu.read_memory(addr as u16);
            addr += 1;
        }
    }

    /// The last snapshot taken.
    pub fn get_cpu_state(&self) -> (r: &CpuDebugState)
        ensures
            *r == self.cpu_state,
    {
        &self.cpu_state
    }
}

impl Display for GuiDisplay {
    /// Keeps the frame and counts it; the count wraps around after
    /// `u64::MAX` frames.
    fn present_frame(&mut self, framebuffer: &[u8; 92160])
        ensures
            final(self).framebuffer == *framebuffer,
            final(self).frame_count == (old(self).frame_count + 1) % 0x1_0000_0000_0000_0000,
    {
        self.framebuffer = *framebuffer;
        self.frame_count = self.frame_count.wrapping_add(1);
    }

    fn name(&self) -> (r: &str)
        ensures
            r@ == "GUI Display"@,
    {
        "GUI Display"
    }
}

} // verus!
