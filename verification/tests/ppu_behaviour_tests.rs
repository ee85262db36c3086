use cash_gb::cpu::instructions::Interrupt;
use cash_gb::ppu::background::BackgroundRenderer;
use cash_gb::ppu::registers::PpuRegisters;
use cash_gb::ppu::sprites::{Sprite, SpriteRenderer};
use cash_gb::ppu::{LcdMode, Ppu};

fn unit(lcdc: u8) -> Ppu {
    let mut ppu = Ppu::new();
    ppu.registers.write_lcdc(lcdc);
    ppu
}

fn pixel(ppu: &Ppu, line: usize, x: usize) -> [u8; 4] {
    let at = (line * 160 + x) * 4;
    [ppu.framebuffer[at], ppu.framebuffer[at + 1], ppu.framebuffer[at + 2], ppu.framebuffer[at + 3]]
}

#[test]
fn test_new_unit_shows_its_mode_in_stat() {
    let ppu = Ppu::new();
    assert_eq!(ppu.registers.read_stat() & 0x03, 2);
    assert_eq!(ppu.registers.get_mode(), LcdMode::OamScan);
    assert_eq!(ppu.registers.read_lcdc(), 0x91);
    assert_eq!(ppu.registers.get_bgp(), 0xFC);
}

#[test]
fn test_invariants_hold_over_two_frames() {
    let mut ppu = unit(0x80);
    for _ in 0..(2 * 154 * 114) {
        ppu.step(4);
        assert!(ppu.scanline <= 153);
        assert_eq!(ppu.registers.get_ly(), ppu.scanline);
        assert_eq!(ppu.registers.read_stat() & 0x03, ppu.mode.code());
        assert_eq!(ppu.registers.get_mode(), ppu.mode);
        assert_eq!(ppu.mode == LcdMode::VBlank, ppu.scanline >= 144);
        assert!(ppu.dots < ppu.mode.typical_duration());
    }
    assert_eq!(ppu.scanline, 0);
    assert_eq!(ppu.mode, LcdMode::OamScan);
}

#[test]
fn test_one_scanline_takes_456_dots() {
    let mut ppu = unit(0x80);
    for _ in 0..114 {
        ppu.step(4);
    }
    assert_eq!(ppu.get_current_line(), 1);
    assert_eq!(ppu.get_current_mode().code(), 2);
}

#[test]
fn test_vblank_is_raised_once_after_144_lines() {
    let mut ppu = unit(0x80);
    let mut vblanks = 0;
    for _ in 0..16416 {
        if ppu.step(4) == Some(Interrupt::VBlank) {
            vblanks += 1;
        }
    }
    assert_eq!(vblanks, 1);
    assert!(ppu.is_frame_ready());
    assert_eq!(ppu.get_current_line(), 144);
    assert_eq!(ppu.get_current_mode().code(), 1);
}

#[test]
fn test_vblank_with_stat_bit_raises_both_interrupts() {
    let mut ppu = unit(0x80);
    ppu.registers.write_stat(0x10);
    ppu.mode = LcdMode::HBlank;
    ppu.registers.set_mode(LcdMode::HBlank);
    ppu.scanline = 143;
    ppu.registers.set_ly(143);
    ppu.dots = 200;
    let raised = ppu.advance(4);
    assert!(raised.vblank);
    assert!(raised.lcd);
    assert_eq!(raised.first(), Some(Interrupt::VBlank));
}

#[test]
fn test_oam_interrupt_on_entering_the_scan() {
    let mut ppu = unit(0x80);
    ppu.registers.write_stat(0x20);
    ppu.mode = LcdMode::HBlank;
    ppu.registers.set_mode(LcdMode::HBlank);
    ppu.dots = 203;
    assert_eq!(ppu.step(1), Some(Interrupt::LCD));
    assert_eq!(ppu.mode, LcdMode::OamScan);
    ppu.mode = LcdMode::VBlank;
    ppu.registers.set_mode(LcdMode::VBlank);
    ppu.scanline = 153;
    ppu.dots = 455;
    assert_eq!(ppu.step(1), Some(Interrupt::LCD));
    assert_eq!(ppu.scanline, 0);
}

#[test]
fn test_lyc_flag_follows_the_line() {
    let mut ppu = unit(0x80);
    ppu.registers.set_lyc(2);
    let mut raised = 0;
    for _ in 0..(3 * 114) {
        if ppu.step(4).is_some() {
            raised += 1;
        }
        assert_eq!(ppu.registers.get_lyc_flag(), ppu.scanline == 2 && ppu.scanline != 0);
    }
    assert_eq!(raised, 0);
    assert_eq!(ppu.scanline, 3);
    assert!(!ppu.registers.get_lyc_flag());
}

#[test]
fn test_lyc_interrupt_in_vblank_lines() {
    let mut ppu = unit(0x80);
    ppu.registers.write_stat(0x40);
    ppu.registers.set_lyc(150);
    ppu.mode = LcdMode::VBlank;
    ppu.registers.set_mode(LcdMode::VBlank);
    ppu.scanline = 149;
    ppu.registers.set_ly(149);
    ppu.dots = 452;
    assert_eq!(ppu.step(4), Some(Interrupt::LCD));
    assert_eq!(ppu.scanline, 150);
    assert!(ppu.registers.get_lyc_flag());
    ppu.dots = 452;
    assert_eq!(ppu.step(4), None);
    assert!(!ppu.registers.get_lyc_flag());
}

#[test]
fn test_display_off_is_inert() {
    let mut ppu = unit(0x00);
    ppu.registers.write_stat(0x78);
    ppu.dots = 79;
    for cycles in [0u8, 1, 4, 255] {
        assert_eq!(ppu.step(cycles), None);
        assert_eq!(ppu.scanline, 0);
        assert_eq!(ppu.mode, LcdMode::OamScan);
        assert_eq!(ppu.dots, 79);
        assert!(!ppu.frame_ready);
    }
    ppu.scanline = 77;
    ppu.registers.set_ly(77);
    ppu.mode = LcdMode::Drawing;
    ppu.registers.set_mode(LcdMode::Drawing);
    assert_eq!(ppu.registers.read_register(0xFF44), 0);
    assert_eq!(ppu.registers.read_register(0xFF41) & 0x03, 0);
    ppu.write_vram(0x8000, 0x12);
    assert_eq!(ppu.read_vram(0x8000), 0x12);
    ppu.write_oam(0xFE00, 0x34);
    assert_eq!(ppu.read_oam(0xFE00), 0x34);
    ppu.registers.write_lcdc(0x80);
    assert_eq!(ppu.registers.read_register(0xFF44), 77);
    assert_eq!(ppu.registers.read_register(0xFF41) & 0x03, 3);
    assert_eq!(ppu.read_vram(0x8000), 0xFF);
}

#[test]
fn test_video_memory_is_closed_while_drawing() {
    let mut ppu = unit(0x80);
    ppu.write_vram(0x9FFF, 0x11);
    ppu.mode = LcdMode::Drawing;
    ppu.write_vram(0x9FFF, 0x22);
    ppu.write_oam(0xFE10, 0x33);
    assert_eq!(ppu.read_vram(0x9FFF), 0xFF);
    ppu.mode = LcdMode::OamScan;
    assert_eq!(ppu.read_vram(0x9FFF), 0x11);
    ppu.write_oam(0xFE10, 0x44);
    assert_eq!(ppu.read_oam(0xFE10), 0xFF);
    ppu.mode = LcdMode::VBlank;
    assert_eq!(ppu.read_oam(0xFE10), 0x00);
    ppu.write_oam(0xFE9F, 0x55);
    assert_eq!(ppu.read_oam(0xFE9F), 0x55);
    assert_eq!(ppu.read_vram(0x7FFF), 0xFF);
    assert_eq!(ppu.read_oam(0xFEA0), 0xFF);
}

#[test]
fn test_register_file_reads_and_writes() {
    let mut registers = PpuRegisters::new();
    registers.write_register(0xFF41, 0xFF);
    assert_eq!(registers.read_register(0xFF41), 0xF8);
    registers.set_mode(LcdMode::Drawing);
    registers.set_lyc_flag(true);
    assert_eq!(registers.read_register(0xFF41), 0xFF);
    registers.write_register(0xFF41, 0x00);
    assert_eq!(registers.read_register(0xFF41), 0x87);
    registers.write_register(0xFF44, 0x55);
    assert_eq!(registers.read_register(0xFF44), 0);
    registers.write_register(0xFF4B, 0x07);
    assert_eq!(registers.get_wx(), 7);
    assert_eq!(registers.read_register(0xFF46), 0xFF);
    registers.set_bgp(0xE4);
    for id in 0..4u8 {
        assert_eq!(registers.get_bg_color(id), id);
    }
    registers.set_obp0(0x1B);
    registers.set_obp1(0xE4);
    assert_eq!(registers.get_sprite_color(0, 1), 2);
    assert_eq!(registers.get_sprite_color(1, 1), 1);
    assert_eq!(registers.get_sprite_color(7, 3), 3);
    registers.reset();
    assert_eq!(registers.read_register(0xFF40), 0x91);
}

#[test]
fn test_sprite_over_background_reaches_the_frame() {
    let mut ppu = unit(0x83);
    ppu.registers.set_bgp(0xE4);
    ppu.registers.set_obp0(0xE4);
    for row in 0..8 {
        ppu.vram[row * 2] = 0xFF;
        ppu.vram[row * 2 + 1] = 0x00;
    }
    ppu.oam[0] = 16;
    ppu.oam[1] = 16;
    ppu.oam[2] = 0;
    ppu.oam[3] = 0;
    for _ in 0..20 {
        ppu.step(4);
    }
    assert_eq!(ppu.mode, LcdMode::Drawing);
    for _ in 0..43 {
        ppu.step(4);
    }
    assert_eq!(ppu.mode, LcdMode::HBlank);
    for x in 8..16 {
        assert_eq!(pixel(&ppu, 0, x), [139, 172, 15, 255]);
    }
    for x in (0..8).chain(16..160) {
        assert_eq!(pixel(&ppu, 0, x), [155, 188, 15, 255]);
    }
    assert_eq!(pixel(&ppu, 1, 8), [0, 0, 0, 0]);
}

#[test]
fn test_background_scrolls_and_wraps() {
    let mut ppu = unit(0x91);
    ppu.registers.set_bgp(0xE4);
    // Tile 1 is solid colour 3; the map shows it at column 31 of row 0 only.
    for i in 0..16 {
        ppu.vram[16 + i] = 0xFF;
    }
    ppu.vram[0x1800 + 31] = 1;
    ppu.scanline = 0;
    ppu.render_scanline();
    assert_eq!(ppu.line_buffer[0], 0);
    ppu.registers.set_scx(248);
    ppu.render_scanline();
    for x in 0..8 {
        assert_eq!(ppu.line_buffer[x], 3);
    }
    assert_eq!(ppu.line_buffer[8], 0);
    ppu.registers.set_scy(8);
    ppu.render_scanline();
    assert_eq!(ppu.line_buffer[0], 0);
    ppu.registers.set_scy(250);
    ppu.scanline = 6;
    ppu.render_scanline();
    assert_eq!(ppu.line_buffer[0], 3);
}

#[test]
fn test_background_tile_data_addressing() {
    let mut ppu = unit(0x81);
    ppu.registers.set_bgp(0xE4);
    // Signed addressing: tile 0 lies at 0x1000, tile 0x80 at 0x0800.
    ppu.vram[0x1000] = 0xFF;
    ppu.vram[0x0800 + 1] = 0xFF;
    ppu.vram[0x1800 + 1] = 0x80;
    ppu.scanline = 0;
    ppu.render_scanline();
    assert_eq!(ppu.line_buffer[0], 1);
    assert_eq!(ppu.line_buffer[8], 2);
    ppu.registers.write_lcdc(0x91);
    ppu.vram[0] = 0xFF;
    ppu.vram[1] = 0xFF;
    ppu.render_scanline();
    assert_eq!(ppu.line_buffer[0], 3);
    // The second map.
    ppu.registers.write_lcdc(0x99);
    ppu.vram[0x1C00] = 0x80;
    ppu.render_scanline();
    assert_eq!(ppu.line_buffer[0], 2);
}

#[test]
fn test_tile_pixel_columns() {
    let renderer = BackgroundRenderer::new();
    let mut vram = [0u8; 0x2000];
    vram[0x0000 + 6] = 0x80;
    vram[0x0000 + 7] = 0x01;
    assert_eq!(renderer.get_tile_pixel(&vram, 0, 0, 3, true), 1);
    assert_eq!(renderer.get_tile_pixel(&vram, 0, 7, 3, true), 2);
    assert_eq!(renderer.get_tile_pixel(&vram, 0, 1, 3, true), 0);
    vram[0x1000 - 16] = 0x80;
    vram[0x1000 - 15] = 0x80;
    assert_eq!(renderer.get_tile_pixel(&vram, 0xFF, 0, 0, false), 3);
    vram[0x1000 + 127 * 16 + 15] = 0x01;
    assert_eq!(renderer.get_tile_pixel(&vram, 127, 7, 7, false), 2);
}

#[test]
fn test_window_overlays_from_wx_and_counts_its_lines() {
    let mut ppu = unit(0xF1);
    ppu.registers.set_bgp(0xE4);
    for i in 0..16 {
        ppu.vram[16 + i] = 0xFF;
    }
    // The window map at 0x1C00 shows tile 1 in its second row only.
    for column in 0..32 {
        ppu.vram[0x1C00 + 32 + column] = 1;
    }
    ppu.registers.set_wy(2);
    ppu.registers.set_wx(87);
    ppu.scanline = 1;
    ppu.render_scanline();
    assert_eq!(ppu.bg_renderer.window_internal_line, 0);
    for line in 2..10u8 {
        ppu.scanline = line;
        ppu.render_scanline();
        assert_eq!(ppu.line_buffer[80], 0);
        assert_eq!(ppu.bg_renderer.window_internal_line, line - 1);
    }
    ppu.scanline = 10;
    ppu.render_scanline();
    assert_eq!(ppu.line_buffer[79], 0);
    for x in 80..160 {
        assert_eq!(ppu.line_buffer[x], 3);
    }
    assert_eq!(ppu.bg_renderer.window_internal_line, 9);
    // A window starting right of the screen gives no pixel and does not count.
    ppu.registers.set_wx(167);
    ppu.scanline = 11;
    ppu.render_scanline();
    assert_eq!(ppu.bg_renderer.window_internal_line, 9);
    // WX below 7 starts the window at column 0.
    ppu.registers.set_wx(3);
    ppu.scanline = 12;
    ppu.render_scanline();
    assert_eq!(ppu.line_buffer[0], 3);
    assert_eq!(ppu.bg_renderer.window_internal_line, 10);
    ppu.bg_renderer.reset_window_line();
    assert_eq!(ppu.bg_renderer.window_internal_line, 0);
}

#[test]
fn test_window_counter_restarts_each_frame() {
    let mut ppu = unit(0xB1);
    ppu.registers.set_wx(7);
    for _ in 0..(154 * 114) {
        ppu.step(4);
        if ppu.scanline == 144 {
            assert_eq!(ppu.bg_renderer.window_internal_line, 144);
        }
    }
    assert_eq!(ppu.scanline, 0);
    assert_eq!(ppu.bg_renderer.window_internal_line, 0);
}

#[test]
fn test_scan_keeps_first_ten_sprites_ordered_by_x() {
    let mut oam = [0u8; 0xA0];
    for i in 0..12 {
        oam[i * 4] = 16;
        oam[i * 4 + 1] = 100 - (i as u8 % 4) * 10;
        oam[i * 4 + 2] = i as u8;
    }
    oam[12 * 4] = 40;
    let mut renderer = SpriteRenderer::new();
    renderer.scan_sprites_for_line(&oam, 0, 8);
    assert_eq!(renderer.sprite_count(), 10);
    let tiles: Vec<u8> = renderer.line_sprites.iter().map(|sprite| sprite.tile_index).collect();
    assert_eq!(tiles, vec![3, 7, 2, 6, 1, 5, 9, 0, 4, 8]);
    renderer.scan_sprites_for_line(&oam, 8, 8);
    assert_eq!(renderer.sprite_count(), 0);
    renderer.scan_sprites_for_line(&oam, 25, 8);
    assert_eq!(renderer.sprite_count(), 1);
}

#[test]
fn test_tall_sprite_visibility_and_clipping() {
    let at_top = Sprite { y: 16, x: 8, tile_index: 0, attributes: 0 };
    for line in 0..16 {
        assert!(at_top.is_on_line(line, 16));
    }
    assert!(!at_top.is_on_line(16, 16));
    let clipped = Sprite { y: 15, x: 8, tile_index: 0, attributes: 0 };
    assert_eq!(clipped.screen_y(), -1);
    for line in 0..15 {
        assert!(clipped.is_on_line(line, 16));
    }
    assert!(!clipped.is_on_line(15, 16));
    // Rows 0 and 1 of tile 0 carry different colours: on line 0 the clipped sprite shows row 1.
    let mut ppu = unit(0x86);
    ppu.registers.set_obp0(0xE4);
    ppu.vram[0] = 0xFF;
    ppu.vram[3] = 0xFF;
    ppu.oam[0] = 15;
    ppu.oam[1] = 8;
    ppu.scanline = 0;
    ppu.sprite_renderer.scan_sprites_for_line(&ppu.oam, 0, 16);
    ppu.render_scanline();
    assert_eq!(ppu.line_buffer[0], 2);
    ppu.oam[0] = 16;
    ppu.sprite_renderer.scan_sprites_for_line(&ppu.oam, 0, 16);
    ppu.render_scanline();
    assert_eq!(ppu.line_buffer[0], 1);
}

#[test]
fn test_sprite_behind_background_shows_only_over_colour_zero() {
    let mut ppu = unit(0x93);
    ppu.registers.set_bgp(0xE4);
    ppu.registers.set_obp0(0xE4);
    // Tile 0: colour 1 everywhere (sprites). Tile 1: colour 2 (background, left half of a tile).
    for row in 0..8 {
        ppu.vram[row * 2] = 0xFF;
        ppu.vram[16 + row * 2 + 1] = 0x0F;
    }
    ppu.vram[0x1800] = 1;
    ppu.vram[0x1801] = 2;
    ppu.oam[0] = 16;
    ppu.oam[1] = 8;
    ppu.oam[3] = 0x80;
    ppu.scanline = 0;
    ppu.sprite_renderer.scan_sprites_for_line(&ppu.oam, 0, 8);
    ppu.render_scanline();
    // The background reads tile columns mirrored: bits 0..3 are its first four pixels.
    assert_eq!(&ppu.line_buffer[0..8], &[2, 2, 2, 2, 1, 1, 1, 1]);
    assert_eq!(ppu.line_buffer[8], 0);
}

#[test]
fn test_sprites_disabled_leave_no_pixels() {
    let mut ppu = unit(0x83);
    ppu.registers.set_obp0(0xE4);
    ppu.vram[0] = 0xFF;
    ppu.oam[0] = 16;
    ppu.oam[1] = 8;
    ppu.scanline = 0;
    ppu.sprite_renderer.scan_sprites_for_line(&ppu.oam, 0, 8);
    ppu.render_scanline();
    assert_eq!(ppu.line_buffer[0], 1);
    assert!(ppu.sprite_priority_buffer[0]);
    ppu.registers.write_lcdc(0x81);
    ppu.render_scanline();
    assert_eq!(ppu.line_buffer[0], 0);
    assert!(!ppu.sprite_priority_buffer[0]);
    assert_eq!(ppu.sprite_buffer[0], 0);
}

#[test]
fn test_sprite_partly_off_screen() {
    let mut ppu = unit(0x82);
    ppu.registers.set_obp0(0xE4);
    ppu.vram[0] = 0xFF;
    ppu.oam[0] = 16;
    ppu.oam[1] = 4;
    ppu.oam[4] = 16;
    ppu.oam[5] = 164;
    ppu.scanline = 0;
    ppu.sprite_renderer.scan_sprites_for_line(&ppu.oam, 0, 8);
    ppu.render_scanline();
    assert_eq!(&ppu.line_buffer[0..5], &[1, 1, 1, 1, 0]);
    assert_eq!(&ppu.line_buffer[155..160], &[0, 1, 1, 1, 1]);
}

#[test]
fn test_lines_of_the_vertical_blank_are_not_drawn() {
    let mut ppu = unit(0x91);
    ppu.vram[0] = 0xFF;
    ppu.scanline = 144;
    ppu.line_buffer[0] = 9;
    ppu.render_scanline();
    assert_eq!(ppu.line_buffer[0], 9);
    assert!(ppu.framebuffer.iter().all(|byte| *byte == 0));
}
