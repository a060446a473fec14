//! A stage: the flat scene collection of sprites a frame draws.

use vstd::prelude::*;
use crate::sprite::Sprite;

verus! {

/// The scene's sprites, in draw-submission order.
pub struct Stage {
    pub children: Vec<Sprite>,
}

impl Stage {
    /// An empty stage.
    pub fn new() -> (r: Stage)
        ensures
            r.children@.len() == 0,
    {
        Stage { children: Vec::new() }
    }
}

} // verus!
