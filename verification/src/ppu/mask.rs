// The PPU mask register: one flag bit per rendering switch, plus the
// derived queries the render loop asks.

use vstd::prelude::*;

verus! {

/// The PPU mask register. Each bit enables one rendering feature; the
/// queries below combine them exactly as the render loop consumes them.
#[derive(Copy, Clone, Debug, PartialEq, Eq, Structural)]
pub struct Mask(pub u8);

impl Mask {
    /// Bit 0: render in greyscale.
    pub open spec fn spec_greyscale(self) -> bool {
        self.0 & 0x01 != 0
    }

    /// Bit 1: show the background in the leftmost 8 pixels of a scanline.
    pub open spec fn spec_show_background_left_8(self) -> bool {
        self.0 & 0x02 != 0
    }

    /// Bit 2: show sprites in the leftmost 8 pixels of a scanline.
    pub open spec fn spec_show_sprites_left_8(self) -> bool {
        self.0 & 0x04 != 0
    }

    /// Bit 3: show the background.
    pub open spec fn spec_show_background(self) -> bool {
        self.0 & 0x08 != 0
    }

    /// Bit 4: show sprites.
    pub open spec fn spec_show_sprites(self) -> bool {
        self.0 & 0x10 != 0
    }

    /// Bit 5: emphasize red.
    pub open spec fn spec_emphasize_red(self) -> bool {
        self.0 & 0x20 != 0
    }

    /// Bit 6: emphasize green.
    pub open spec fn spec_emphasize_green(self) -> bool {
        self.0 & 0x40 != 0
    }

    /// Bit 7: emphasize blue.
    pub open spec fn spec_emphasize_blue(self) -> bool {
        self.0 & 0x80 != 0
    }

    /// Bit 0: render in greyscale.
    pub fn greyscale(&self) -> (r: bool)
        ensures
            r == self.spec_greyscale(),
    {
        self.0 & 0x01 != 0
    }

    /// Bit 1: show the background in the leftmost 8 pixels of a scanline.
    pub fn show_background_left_8(&self) -> (r: bool)
        ensures
            r == self.spec_show_background_left_8(),
    {
        self.0 & 0x02 != 0
    }

    /// Bit 2: show sprites in the leftmost 8 pixels of a scanline.
    pub fn show_sprites_left_8(&self) -> (r: bool)
        ensures
            r == self.spec_show_sprites_left_8(),
    {
        self.0 & 0x04 != 0
    }

    /// Bit 3: show the background.
    pub fn show_background(&self) -> (r: bool)
        ensures
            r == self.spec_show_background(),
    {
        self.0 & 0x08 != 0
    }

    /// Bit 4: show sprites.
    pub fn show_sprites(&self) -> (r: bool)
        ensures
            r == self.spec_show_sprites(),
    {
        self.0 & 0x10 != 0
    }

    /// Bit 5: emphasize red.
    pub fn emphasize_red(&self) -> (r: bool)
        ensures
            r == self.spec_emphasize_red(),
    {
        self.0 & 0x20 != 0
    }

    /// Bit 6: emphasize green.
    pub fn emphasize_green(&self) -> (r: bool)
        ensures
            r == self.spec_emphasize_green(),
    {
        self.0 & 0x40 != 0
    }

    /// Bit 7: emphasize blue.
    pub fn emphasize_blue(&self) -> (r: bool)
        ensures
            r == self.spec_emphasize_blue(),
    {
        self.0 & 0x80 != 0
    }

    /// Whether any rendering is enabled: sprites, background, or both.
    pub fn rendering(&self) -> (r: bool)
        ensures
            r == (self.spec_show_sprites() || self.spec_show_background()),
    {
        self.show_sprites() || self.show_background()
    }

    /// Whether the background is rendered at horizontal position `x`:
    /// the background must be shown, and within the leftmost 8 pixels its
    /// left-column bit must be set as well.
    pub fn rendering_background(&self, x: usize) -> (r: bool)
        ensures
            r == (self.spec_show_background() && (self.spec_show_background_left_8() || x >= 8)),
    {
        self.show_background() && (self.show_background_left_8() || x >= 8)
    }

    /// Whether sprites are rendered at horizontal position `x`: sprites
    /// must be shown, and within the leftmost 8 pixels their left-column
    /// bit must be set as well.
    pub fn rendering_sprites(&self, x: usize) -> (r: bool)
        ensures
            r == (self.spec_show_sprites() && (self.spec_show_sprites_left_8() || x >= 8)),
    {
        self.show_sprites() && (self.show_sprites_left_8() || x >= 8)
    }
}

} // verus!
