use cash_gb::cpu::instructions::Interrupt;
use cash_gb::ppu::display::{DebugDisplay, Display};
use cash_gb::ppu::{LcdMode, Ppu};

fn create_test_ppu() -> Ppu {
    Ppu::new()
}

#[test]
fn test_ppu_initialization() {
    let ppu = create_test_ppu();

    assert_eq!(ppu.mode, LcdMode::OamScan);
    assert_eq!(ppu.dots, 0);
    assert_eq!(ppu.scanline, 0);
    assert!(!ppu.frame_ready);
    assert_eq!(ppu.get_current_line(), 0);
    assert_eq!(ppu.get_current_mode(), LcdMode::OamScan);
}

#[test]
fn test_ppu_reset() {
    let mut ppu = create_test_ppu();

    ppu.dots = 100;
    ppu.scanline = 50;
    ppu.mode = LcdMode::VBlank;
    ppu.frame_ready = true;

    ppu.reset();

    assert_eq!(ppu.mode, LcdMode::OamScan);
    assert_eq!(ppu.dots, 0);
    assert_eq!(ppu.scanline, 0);
    assert!(!ppu.frame_ready);
}

#[test]
fn test_lcd_disabled() {
    let mut ppu = create_test_ppu();

    ppu.registers.write_lcdc(0x00);

    let interrupt = ppu.step(10);
    assert!(interrupt.is_none());
}

#[test]
fn test_oam_scan_mode() {
    let mut ppu = create_test_ppu();
    assert_eq!(ppu.mode, LcdMode::OamScan);

    for _ in 0..7 {
        let interrupt = ppu.step(10);
        assert!(interrupt.is_none());
        assert_eq!(ppu.mode, LcdMode::OamScan);
    }

    let interrupt = ppu.step(10);
    assert!(interrupt.is_none());
    assert_eq!(ppu.mode, LcdMode::Drawing);
    assert_eq!(ppu.dots, 0);
}

#[test]
fn test_drawing_mode() {
    let mut ppu = create_test_ppu();

    ppu.mode = LcdMode::Drawing;
    ppu.registers.set_mode(LcdMode::Drawing);

    for _ in 0..17 {
        let interrupt = ppu.step(10);
        assert!(interrupt.is_none());
        assert_eq!(ppu.mode, LcdMode::Drawing);
    }

    let interrupt = ppu.step(10);
    assert!(interrupt.is_none());
    assert_eq!(ppu.mode, LcdMode::HBlank);
}

#[test]
fn test_hblank_mode() {
    let mut ppu = create_test_ppu();

    ppu.mode = LcdMode::HBlank;
    ppu.registers.set_mode(LcdMode::HBlank);
    ppu.scanline = 10;

    for _ in 0..20 {
        let interrupt = ppu.step(10);
        assert!(interrupt.is_none());
        assert_eq!(ppu.mode, LcdMode::HBlank);
    }

    let interrupt = ppu.step(10);
    assert!(interrupt.is_none());
    assert_eq!(ppu.mode, LcdMode::OamScan);
    assert_eq!(ppu.scanline, 11);
}

#[test]
fn test_vblank_transition() {
    let mut ppu = create_test_ppu();

    ppu.mode = LcdMode::HBlank;
    ppu.registers.set_mode(LcdMode::HBlank);
    ppu.scanline = 143;
    ppu.registers.set_ly(143);

    ppu.dots = 204;
    let interrupt = ppu.step(1);

    assert_eq!(interrupt, Some(Interrupt::VBlank));
    assert_eq!(ppu.mode, LcdMode::VBlank);
    assert_eq!(ppu.scanline, 144);
    assert!(ppu.frame_ready);
}

#[test]
fn test_vblank_mode() {
    let mut ppu = create_test_ppu();

    ppu.mode = LcdMode::VBlank;
    ppu.registers.set_mode(LcdMode::VBlank);
    ppu.scanline = 150;

    for _ in 0..45 {
        let interrupt = ppu.step(10);
        assert!(interrupt.is_none());
        assert_eq!(ppu.mode, LcdMode::VBlank);
    }

    let interrupt = ppu.step(10);
    assert!(interrupt.is_none());
    assert_eq!(ppu.mode, LcdMode::VBlank);
    assert_eq!(ppu.scanline, 151);
}

#[test]
fn test_frame_completion() {
    let mut ppu = create_test_ppu();

    ppu.mode = LcdMode::VBlank;
    ppu.registers.set_mode(LcdMode::VBlank);
    ppu.scanline = 153;
    ppu.dots = 456;

    let interrupt = ppu.step(1);
    assert!(interrupt.is_none());
    assert_eq!(ppu.mode, LcdMode::OamScan);
    assert_eq!(ppu.scanline, 0);
    assert_eq!(ppu.dots, 0);
}

#[test]
fn test_vram_access_restrictions() {
    let mut ppu = create_test_ppu();

    ppu.write_vram(0x8000, 0x42);

    ppu.mode = LcdMode::HBlank;
    assert_eq!(ppu.read_vram(0x8000), 0x42);

    ppu.mode = LcdMode::Drawing;
    assert_eq!(ppu.read_vram(0x8000), 0xFF);

    ppu.write_vram(0x8000, 0x99);
    ppu.mode = LcdMode::HBlank;
    assert_eq!(ppu.read_vram(0x8000), 0x42);
}

#[test]
fn test_oam_access_restrictions() {
    let mut ppu = create_test_ppu();

    ppu.mode = LcdMode::HBlank;
    ppu.write_oam(0xFE00, 0x42);

    assert_eq!(ppu.read_oam(0xFE00), 0x42);

    ppu.mode = LcdMode::OamScan;
    assert_eq!(ppu.read_oam(0xFE00), 0xFF);

    ppu.mode = LcdMode::Drawing;
    assert_eq!(ppu.read_oam(0xFE00), 0xFF);
}

#[test]
fn test_frame_ready_flag() {
    let mut ppu = create_test_ppu();

    assert!(!ppu.is_frame_ready());

    ppu.frame_ready = true;
    assert!(ppu.is_frame_ready());

    let _framebuffer = ppu.get_framebuffer();
    assert!(!ppu.is_frame_ready());
}

#[test]
fn test_stat_interrupts() {
    let mut ppu = create_test_ppu();

    ppu.registers.write_stat(0x08);

    ppu.mode = LcdMode::Drawing;
    ppu.dots = 172;

    let interrupt = ppu.step(1);
    assert_eq!(interrupt, Some(Interrupt::LCD));
    assert_eq!(ppu.mode, LcdMode::HBlank);
}

#[test]
fn test_lyc_interrupt() {
    let mut ppu = create_test_ppu();

    ppu.registers.write_stat(0x40);
    ppu.registers.set_lyc(50);

    ppu.mode = LcdMode::HBlank;
    ppu.scanline = 49;
    ppu.dots = 204;

    let interrupt = ppu.step(1);
    assert_eq!(interrupt, Some(Interrupt::LCD));
    assert_eq!(ppu.scanline, 50);
    assert!(ppu.registers.get_lyc_flag());
}

#[test]
fn test_scanline_rendering() {
    let mut ppu = create_test_ppu();

    ppu.registers.write_lcdc(0x81);

    ppu.scanline = 50;
    ppu.render_scanline();

    for x in 0..160 {
        let expected_bg_color = ppu.registers.get_bg_color(0);
        assert_eq!(ppu.line_buffer[x], expected_bg_color);
    }
}

#[test]
fn test_display_integration() {
    let mut ppu = create_test_ppu();
    let mut display = DebugDisplay::new();

    ppu.frame_ready = true;

    if ppu.is_frame_ready() {
        let framebuffer = ppu.get_framebuffer();
        display.present_frame(framebuffer);
    }

    assert_eq!(display.frame_count(), 1);
    assert!(!ppu.is_frame_ready());
}

#[test]
fn test_full_frame_cycle() {
    let mut ppu = create_test_ppu();
    let mut frame_count = 0;

    for _frame in 0..2 {
        for _line in 0..154 {
            while ppu.get_current_line() == _line {
                let _interrupt = ppu.step(10);

                if ppu.is_frame_ready() {
                    frame_count += 1;
                    let _framebuffer = ppu.get_framebuffer();
                    break;
                }
            }
        }
    }

    assert_eq!(frame_count, 2);
}
