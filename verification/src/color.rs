//! Predefined color values.
//!
//! Each color is an RGB triple of 8-bit channels.

use vstd::prelude::*;

verus! {

pub const YELLOW: (u8, u8, u8) = (255, 255, 0);

pub const ORANGE: (u8, u8, u8) = (255, 165, 0);

pub const RED: (u8, u8, u8) = (255, 0, 0);

pub const PURPLE: (u8, u8, u8) = (128, 0, 128);

pub const PINK: (u8, u8, u8) = (255, 0, 255);

pub const BLUE: (u8, u8, u8) = (0, 0, 255);

pub const TEAL: (u8, u8, u8) = (0, 128, 128);

pub const AQUA: (u8, u8, u8) = (0, 255, 255);

pub const LIME: (u8, u8, u8) = (0, 255, 0);

pub const GREEN: (u8, u8, u8) = (0, 128, 0);

pub const LIGHT_GREY: (u8, u8, u8) = (119, 136, 153);

pub const GREY: (u8, u8, u8) = (100, 100, 100);

pub const BROWN: (u8, u8, u8) = (139, 69, 19);

pub const LIGHT_BROWN: (u8, u8, u8) = (205, 133, 63);

pub const WHITE: (u8, u8, u8) = (255, 255, 255);

pub const BLACK: (u8, u8, u8) = (0, 0, 0);

} // verus!
