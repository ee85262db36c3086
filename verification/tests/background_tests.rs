use cash_gb::ppu::background::BackgroundRenderer;

#[test]
fn test_background_renderer_creation() {
    let renderer = BackgroundRenderer::new();
    assert_eq!(renderer.window_internal_line, 0);
}

#[test]
fn test_get_tile_pixel() {
    let renderer = BackgroundRenderer::new();
    let mut vram = [0; 0x2000];

    // Set up a test pattern where each pixel_x has a specific expected color:
    // pixel_x=7 (bit 0): color 3 (both bits set)
    // pixel_x=6 (bit 1): color 2 (MSB only)
    // pixel_x=5 (bit 2): color 1 (LSB only)
    // pixel_x=4 (bit 3): color 0 (neither bit)
    vram[0x0000] = 0b00000101; // LSB: bits 0,2 set
    vram[0x0001] = 0b00000011; // MSB: bits 0,1 set

    // Test pixel extraction
    let pixel = renderer.get_tile_pixel(&vram, 0, 7, 0, true);
    assert_eq!(pixel, 3); // Both bits set = color 3 (bit 0 set in both)

    let pixel = renderer.get_tile_pixel(&vram, 0, 6, 0, true);
    assert_eq!(pixel, 2); // Only MSB set = color 2 (bit 1 set in MSB only)

    let pixel = renderer.get_tile_pixel(&vram, 0, 5, 0, true);
    assert_eq!(pixel, 1); // Only LSB set = color 1 (bit 2 set in LSB only)

    let pixel = renderer.get_tile_pixel(&vram, 0, 4, 0, true);
    assert_eq!(pixel, 0); // No bits set = color 0 (bit 3 clear in both)
}
