//! A frame buffer of 64 by 32 pixels.
mod draw;
mod sc64x32;
mod viewport;

pub use draw::Draw;
pub use sc64x32::{
    drawn, erases, lemma_drawn_rows, lemma_drawn_twice, lemma_rotated_pixels, pixel, rendering,
    rotated, scans, sprite_column, sprite_row, Sc64x32,
};
pub use viewport::Viewport;
