//! What a host on a terminal needs beside its devices: a 64 by 32 frame
//! buffer, the mapping of a keyboard to the keypad, the text of an overlay
//! that shows the state of the machine, and stand-ins for a buzzer and a
//! random number generator.
pub mod debug;
mod keyboard;
mod nil;
mod screen;

pub use keyboard::{keycode_to_event, query, Key, Keycode};
pub use nil::{NilBuzzer, NilRng};
pub use screen::{
    drawn, erases, lemma_drawn_rows, lemma_drawn_twice, lemma_rotated_pixels, pixel, rendering,
    rotated, scans, sprite_column, sprite_row, Draw, Sc64x32, Viewport,
};
