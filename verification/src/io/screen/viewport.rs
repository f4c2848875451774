//! What a display has to offer to be drawn on.
use super::draw::Draw;
use vstd::prelude::*;

verus! {

/// A display of pixels that sprites are drawn on.
pub trait Viewport {
    /// The number of pixels in a row.
    fn width(&self) -> usize;

    /// The number of rows.
    fn height(&self) -> usize;

    /// Draws the sprite `buf`, one byte per row, with its top left pixel at
    /// `(vx, vy)`.
    fn draw(&mut self, vx: u8, vy: u8, buf: &[u8]) -> Draw;

    /// Switches every pixel off.
    fn clear(&mut self);
}

} // verus!
