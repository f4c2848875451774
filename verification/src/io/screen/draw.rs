//! What drawing a sprite changes.
use vstd::prelude::*;

verus! {

/// The outcome of drawing a sprite: the rows of the display that changed,
/// each with its number and its pixels as text, and whether a pixel was
/// erased.
#[derive(Debug, Clone)]
pub struct Draw {
    pub scans: Vec<(usize, String)>,
    pub collision: bool,
}

impl Draw {
    /// An outcome without changes, with room for `capacity` rows.
    pub fn new(capacity: usize) -> (draw: Self)
        ensures
            draw.scans@.len() == 0,
            !draw.collision,
    {
        Draw { scans: Vec::with_capacity(capacity), collision: false }
    }
}

} // verus!
