//! A text element: a font reference, a size, the string, and a position.
//! The glyph rasterisation itself is the shell's business.

use vstd::prelude::*;
use crate::fixed::FX_ONE;
use crate::instance::Vec3;
use crate::loader::ResourceId;

verus! {

/// A piece of text to draw with a loaded font.
#[derive(Clone, Debug, PartialEq)]
pub struct Text {
    pub font_id: ResourceId,
    /// Font size in fixed-point points.
    pub font_size: i64,
    pub text: String,
    pub position: Vec3,
}

impl Text {
    /// A text element at the origin with the default size of 32 points.
    pub fn new(font_id: ResourceId, text: &str) -> (r: Text)
        ensures
            r.font_id == font_id,
            r.text@ == text@,
            r.font_size == 32 * FX_ONE,
            r.position == (Vec3 { x: 0, y: 0, z: 0 }),
    {
        Text {
            font_id,
            position: Vec3 { x: 0, y: 0, z: 0 },
            font_size: 32 * FX_ONE,
            text: text.to_owned(),
        }
    }
}

} // verus!
