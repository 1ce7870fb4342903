//! The colors of the editor's look, as 8-bit red, green and blue.

use vstd::prelude::*;

verus! {

/// A color given by its 8-bit red, green and blue parts.
#[derive(Debug, Clone, Copy, PartialEq, Eq, Structural)]
pub struct Rgb8 {
    pub r: u8,
    pub g: u8,
    pub b: u8,
}

/// The named colors of the editor, each written `0xRRGGBB`.
#[derive(Debug, Clone, Copy, PartialEq, Eq, Structural)]
pub struct Palette;

impl Palette {
    pub const DARKEST_BACKGROUND: u32 = 0x222530u32;
    pub const DARK_BACKGROUND: u32 = 0x4a4a4au32;
    pub const DARK_BORDER: u32 = 0x1e1e1eu32;
    pub const TEXT_ON_DARK: u32 = 0xedededu32;
    pub const DARK_BUTTON: u32 = 0x7a8299u32;
    pub const RAIL_ACTIVE: u32 = 0xf0ea81u32;
    pub const RAIL_DEACTIVE: u32 = 0xb8b581u32;
    pub const BLUE_BACKGROUND: u32 = 0x545b85u32;
    pub const LIGHT_GRAY: u32 = 0xd1d1d1u32;
    pub const PROGRESS_ORANGE: u32 = 0xfc7b03u32;
    pub const ERROR_RED: u32 = 0xb01700u32;

    /// The red, green and blue parts of a color written `0xRRGGBB`.
    pub fn rgb8(color: u32) -> (c: Rgb8)
        requires
            color <= 0xffffff,
        ensures
            c.r == color / 65536,
            c.g == (color / 256) % 256,
            c.b == color % 256,
    {
        let r = (color / 65536) as u8;
        let g = ((color / 256) % 256) as u8;
        let b = (color % 256) as u8;
        Rgb8 { r, g, b }
    }
}

} // verus!
