use cash_gb::ppu::display::{ColorConverter, DebugDisplay, Display, NullDisplay, TerminalDisplay};

#[test]
fn test_color_conversion() {
    let (r, g, b) = ColorConverter::gb_color_to_rgb(0);
    assert_eq!((r, g, b), (155, 188, 15)); // Lightest green

    let (r, g, b) = ColorConverter::gb_color_to_rgb(3);
    assert_eq!((r, g, b), (15, 56, 15)); // Darkest green

    let gray = ColorConverter::gb_color_to_gray(0);
    assert_eq!(gray, 255); // White

    let gray = ColorConverter::gb_color_to_gray(3);
    assert_eq!(gray, 0); // Black

    let rgba = ColorConverter::gb_color_to_rgba(1);
    assert_eq!(rgba, [139, 172, 15, 255]);
}

#[test]
fn test_null_display() {
    let mut display = NullDisplay;
    let framebuffer = [0u8; 160 * 144 * 4];

    // Should not panic
    display.present_frame(&framebuffer);
    assert_eq!(display.name(), "Null Display");
}

#[test]
fn test_debug_display() {
    let mut display = DebugDisplay::new();
    assert_eq!(display.frame_count(), 0);

    let framebuffer = [0u8; 160 * 144 * 4];
    display.present_frame(&framebuffer);

    assert_eq!(display.frame_count(), 1);
}

#[test]
fn test_terminal_display() {
    let mut display = TerminalDisplay::new(false);
    let framebuffer = [0u8; 160 * 144 * 4];

    // Should not panic
    display.present_frame(&framebuffer);
    assert_eq!(display.name(), "Terminal Display");

    // Test ASCII conversion
    assert_eq!(display.pixel_to_ascii(0, 0, 0), '\u{2588}');
    assert_eq!(display.pixel_to_ascii(255, 255, 255), '\u{2591}');
}
