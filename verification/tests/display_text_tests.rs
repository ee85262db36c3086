use cash_gb::cpu::Cpu;
use cash_gb::memory::cart::cart_header::NINTENDO_LOGO;
use cash_gb::memory::cart::Cart;
use cash_gb::ppu::display::{ColorConverter, CpuDebugState, Display, GuiDisplay, TerminalDisplay};
use cash_gb::text::{append_decimal, append_hexadecimal, append_repeated, append_truth, append_upper_hex4};

fn display_cpu() -> Cpu {
    let mut data = vec![0u8; 0x8000];
    for (i, byte) in NINTENDO_LOGO.iter().enumerate() {
        data[0x0104 + i] = *byte;
    }
    data[0x0100] = 0x3E;
    let mut checksum = 0u8;
    for at in 0x0134..=0x014C {
        checksum = checksum.wrapping_sub(data[at]).wrapping_sub(1);
    }
    data[0x014D] = checksum;
    Cpu::new(Cart::new(&data).unwrap())
}

#[test]
fn test_numbers_in_text() {
    let mut text = String::from("n=");
    append_decimal(&mut text, 0);
    append_decimal(&mut text, 7);
    append_decimal(&mut text, 10);
    append_decimal(&mut text, 18446744073709551615);
    assert_eq!(text, "n=071018446744073709551615");
    let mut text = String::new();
    append_hexadecimal(&mut text, 0);
    append_hexadecimal(&mut text, 0x1f);
    append_hexadecimal(&mut text, 0xABCDEF);
    assert_eq!(text, "0x00x1f0xabcdef");
    let mut text = String::new();
    append_upper_hex4(&mut text, 0x00AF);
    append_upper_hex4(&mut text, 0xC001);
    assert_eq!(text, "00AFC001");
    let mut text = String::new();
    append_truth(&mut text, true);
    append_truth(&mut text, false);
    append_repeated(&mut text, '-', 3);
    append_repeated(&mut text, '+', 0);
    assert_eq!(text, "truefalse---");
}

#[test]
fn test_shades_of_grey_and_colour() {
    for (index, rgb, gray) in [
        (0u8, (155u8, 188u8, 15u8), 255u8),
        (1, (139, 172, 15), 170),
        (2, (48, 98, 48), 85),
        (3, (15, 56, 15), 0),
        (7, (15, 56, 15), 0),
        (4, (155, 188, 15), 255),
    ] {
        assert_eq!(ColorConverter::gb_color_to_rgb(index), rgb);
        assert_eq!(ColorConverter::gb_color_to_gray(index), gray);
        assert_eq!(ColorConverter::gb_color_to_rgba(index), [rgb.0, rgb.1, rgb.2, 255]);
    }
}

#[test]
fn test_terminal_pixels() {
    let display = TerminalDisplay::new(true);
    assert_eq!(display.pixel_to_ascii(63, 63, 63), '\u{2588}');
    assert_eq!(display.pixel_to_ascii(64, 64, 64), '\u{2593}');
    assert_eq!(display.pixel_to_ascii(127, 128, 129), '\u{2592}');
    assert_eq!(display.pixel_to_ascii(192, 192, 192), '\u{2591}');
    assert_eq!(display.pixel_to_ansi(0, 0, 0), "\x1b[48;5;232m  \x1b[0m");
    assert_eq!(display.pixel_to_ansi(100, 100, 100), "\x1b[48;5;240m  \x1b[0m");
    assert_eq!(display.pixel_to_ansi(155, 188, 15), "\x1b[48;5;240m  \x1b[0m");
    assert_eq!(display.pixel_to_ansi(150, 150, 150), "\x1b[48;5;248m  \x1b[0m");
    assert_eq!(display.pixel_to_ansi(255, 255, 255), "\x1b[48;5;255m  \x1b[0m");
}

#[test]
fn test_terminal_frame_text() {
    let mut framebuffer = [0u8; 160 * 144 * 4];
    for k in 0..3 {
        framebuffer[4 + k] = 255;
        framebuffer[(143 * 160 + 159) * 4 + k] = 100;
    }
    let mut display = TerminalDisplay::new(false);
    display.present_frame(&framebuffer);
    display.present_frame(&framebuffer);
    let text = display.render_frame(&framebuffer);
    let lines: Vec<&str> = text.split('\n').collect();
    assert_eq!(lines.len(), 149);
    assert_eq!(lines[0], "\x1b[2J\x1b[HGame Boy Display - Frame 2");
    assert_eq!(lines[1], format!("\u{250c}{}\u{2510}", "\u{2500}".repeat(160)));
    assert_eq!(lines[2], format!("\u{2502}\u{2588}\u{2591}{}\u{2502}", "\u{2588}".repeat(158)));
    assert_eq!(lines[3], format!("\u{2502}{}\u{2502}", "\u{2588}".repeat(160)));
    assert_eq!(lines[145], format!("\u{2502}{}\u{2593}\u{2502}", "\u{2588}".repeat(159)));
    assert_eq!(lines[146], format!("\u{2514}{}\u{2518}", "\u{2500}".repeat(160)));
    assert_eq!(lines[147], "");
    assert_eq!(lines[148], "");
    let colour = TerminalDisplay::new(true).render_frame(&framebuffer);
    let lines: Vec<&str> = colour.split('\n').collect();
    assert_eq!(lines[0], "\x1b[2J\x1b[HGame Boy Display - Frame 0");
    assert_eq!(lines[1].chars().count(), 322);
    assert_eq!(
        lines[2],
        format!(
            "\u{2502}\x1b[48;5;232m  \x1b[0m\x1b[48;5;255m  \x1b[0m{}\u{2502}",
            "\x1b[48;5;232m  \x1b[0m".repeat(158)
        )
    );
}

#[test]
fn test_debugger_snapshot() {
    let mut cpu = display_cpu();
    cpu.write(&0xC000, 0x42);
    cpu.write(&0xFF80, 0x99);
    let mut display = GuiDisplay::new();
    assert_eq!(display.name(), "GUI Display");
    assert!(display.is_ready());
    assert_eq!(display.get_cpu_state().current_instruction, "NOP");
    display.update_cpu_state(&cpu);
    let state = display.get_cpu_state();
    assert_eq!((state.pc, state.sp), (0x0100, 0xFFFE));
    assert_eq!((state.af, state.bc, state.de, state.hl), (0x01B0, 0x0013, 0x00D8, 0x014D));
    assert_eq!(state.flags, (true, false, true, true));
    assert_eq!(state.memory[0xC000], 0x42);
    assert_eq!(state.memory[0xE000], 0x42);
    assert_eq!(state.memory[0xFF80], 0x99);
    assert_eq!(state.memory[0x0100], 0x3E);
    assert_eq!(state.memory[0xFF40], 0x91);
    assert_eq!(state.memory[0xFEA0], 0xFF);
    assert_eq!(state.instruction_history.len(), 1);
    assert_eq!(state.instruction_history[0], "0100: NOP");
    cpu.step();
    display.update_cpu_state(&cpu);
    assert_eq!(display.get_cpu_state().current_instruction, "LD A, PC");
    assert_eq!(display.get_cpu_state().instruction_history[1], "0101: LD A, PC");
    for _ in 0..150 {
        display.update_cpu_state(&cpu);
    }
    let history = &display.get_cpu_state().instruction_history;
    assert_eq!(history.len(), 100);
    assert_eq!(history[0], "0101: LD A, PC");
    let mut frame = [0u8; 160 * 144 * 4];
    frame[5] = 9;
    display.present_frame(&frame);
    assert_eq!(display.framebuffer[5], 9);
    assert_eq!(display.frame_count, 1);
    let empty = CpuDebugState::default();
    assert_eq!(empty.pc, 0);
    assert!(empty.instruction_history.is_empty());
}
