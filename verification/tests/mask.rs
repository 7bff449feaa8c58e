use nes_core::ppu::mask::Mask;

#[test]
fn test_rendering_sprites() {
    // Sprites shown, but left 8 pixels hidden
    assert!(!Mask(0b0001_0000).rendering_sprites(7));
    assert!(Mask(0b0001_0000).rendering_sprites(8));

    // Sprites shown, and left 8 pixels shown
    assert!(Mask(0b0001_0100).rendering_sprites(7));
    assert!(Mask(0b0001_0100).rendering_sprites(8));

    // Sprites not shown, and left 8 pixels shown
    assert!(!Mask(0b0000_0100).rendering_sprites(7));
    assert!(!Mask(0b0000_0100).rendering_sprites(8));
}

#[test]
fn test_rendering_background() {
    // Background shown, but left 8 pixels hidden
    assert!(!Mask(0b0000_1000).rendering_background(7));
    assert!(Mask(0b0000_1000).rendering_background(8));

    // background shown, and left 8 pixels shown
    assert!(Mask(0b0000_1010).rendering_background(7));
    assert!(Mask(0b0000_1010).rendering_background(8));

    // background not shown, and left 8 pixels shown
    assert!(!Mask(0b0000_0010).rendering_background(7));
    assert!(!Mask(0b0000_0010).rendering_background(8));
}

#[test]
fn test_rendering() {
    assert!(!Mask(0b0000_0000).rendering());
    assert!(Mask(0b0000_1000).rendering());
    assert!(Mask(0b0001_0000).rendering());
    assert!(Mask(0b0001_1000).rendering());
    assert!(!Mask(0b1110_0111).rendering());
}

#[test]
fn test_mask_flags() {
    assert!(Mask(0b0000_0001).greyscale());
    assert!(Mask(0b0000_0010).show_background_left_8());
    assert!(Mask(0b0000_0100).show_sprites_left_8());
    assert!(Mask(0b0000_1000).show_background());
    assert!(Mask(0b0001_0000).show_sprites());
    assert!(Mask(0b0010_0000).emphasize_red());
    assert!(Mask(0b0100_0000).emphasize_green());
    assert!(Mask(0b1000_0000).emphasize_blue());
    assert!(!Mask(0b1111_1110).greyscale());
    assert!(!Mask(0b1101_1111).emphasize_red());
}
