//! The hardware abstraction layer: the five capabilities that the machine
//! needs from its host, a bundle that holds one of each, and mocks of them.
mod hal;

pub use hal::{BuzzerExt, DelayExt, Hardware, HardwareExt, KeypadExt, RngExt, ScreenExt};

pub mod generic;
pub mod mocks;
