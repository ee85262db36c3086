use cash_gb::ppu::sprites::{Sprite, SpriteRenderer};

#[test]
fn test_sprite_from_oam() {
    let oam_data = [100, 50, 12, 0x20]; // Y=100, X=50, tile=12, attributes=0x20
    let sprite = Sprite::from_oam(&oam_data);

    assert_eq!(sprite.y, 100);
    assert_eq!(sprite.x, 50);
    assert_eq!(sprite.tile_index, 12);
    assert_eq!(sprite.attributes, 0x20);
}

#[test]
fn test_sprite_screen_positions() {
    let sprite = Sprite {
        y: 16,
        x: 8,
        tile_index: 0,
        attributes: 0,
    };

    assert_eq!(sprite.screen_y(), 0);  // 16 - 16 = 0
    assert_eq!(sprite.screen_x(), 0);  // 8 - 8 = 0
}

#[test]
fn test_sprite_attributes() {
    let sprite = Sprite {
        y: 0,
        x: 0,
        tile_index: 0,
        attributes: 0b11110000, // All flags set
    };

    assert!(!sprite.has_priority());    // Bit 7 = 1, no priority
    assert!(sprite.is_y_flipped());     // Bit 6 = 1
    assert!(sprite.is_x_flipped());     // Bit 5 = 1
    assert_eq!(sprite.palette(), 1);    // Bit 4 = 1, palette 1
}

#[test]
fn test_sprite_line_visibility() {
    let sprite = Sprite {
        y: 26, // Screen Y = 10
        x: 8,
        tile_index: 0,
        attributes: 0,
    };

    // 8x8 sprite
    assert!(!sprite.is_on_line(9, 8));   // Above sprite
    assert!(sprite.is_on_line(10, 8));   // First line of sprite
    assert!(sprite.is_on_line(17, 8));   // Last line of sprite
    assert!(!sprite.is_on_line(18, 8));  // Below sprite

    // 8x16 sprite
    assert!(sprite.is_on_line(25, 16));  // Last line of 8x16 sprite
    assert!(!sprite.is_on_line(26, 16)); // Below 8x16 sprite
}

#[test]
fn test_sprite_renderer_creation() {
    let renderer = SpriteRenderer::new();
    assert_eq!(renderer.sprite_count(), 0);
}
