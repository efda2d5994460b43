//! Rendering core for an 8x8 RGB LED matrix.
//!
//! The matrix is addressed by `(x, y)` coordinates with `y = 0` at the
//! bottom. The heart of the crate is [`buffer::ColorBuffer`], an 8x8 grid of
//! RGB triples that the drawing operations write into and that a display
//! backend reads out. Pixel-art strips are built with [`billboard`], text
//! strips with [`character`], and both are drawn one frame at a time with a
//! caller-controlled scroll offset.

use vstd::prelude::*;

pub mod billboard;
pub mod bitmap;
pub mod buffer;
pub mod character;
pub mod color;
pub mod input;
pub mod render;

verus! {

/// Width of the LED matrix in pixels.
pub const WIDTH: usize = 8;

/// Height of the LED matrix in pixels.
pub const HEIGHT: usize = 8;

/// Returns the coordinates of all LEDs, row by row from the bottom.
///
/// Useful for avoiding nested loops when walking the whole display.
pub fn all_led_coordinates() -> (coords: Vec<(usize, usize)>)
    ensures
        coords@.len() == WIDTH * HEIGHT,
        forall|i: int|
            0 <= i < coords@.len() ==> coords@[i] == ((i % 8) as usize, (i / 8) as usize),
{
    let mut coords: Vec<(usize, usize)> = Vec::new();
    let mut y: usize = 0;
    while y < HEIGHT
        invariant
            y <= 8,
            coords@.len() == y * 8,
            forall|i: int|
                0 <= i < coords@.len() ==> coords@[i] == ((i % 8) as usize, (i / 8) as usize),
        decreases 8 - y,
    {
        let mut x: usize = 0;
        while x < WIDTH
            invariant
                y < 8,
                x <= 8,
                coords@.len() == y * 8 + x,
                forall|i: int|
                    0 <= i < coords@.len() ==> coords@[i] == ((i % 8) as usize, (i / 8) as usize),
            decreases 8 - x,
        {
            coords.push((x, y));
            x = x + 1;
        }
        y = y + 1;
    }
    coords
}

} // verus!
