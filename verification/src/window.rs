//! Window concerns the library decides on; the native window itself is the
//! shell's.

use vstd::prelude::*;

verus! {

/// The display mode a window can be put into.
#[derive(Clone, Copy, Debug, PartialEq, Eq, Structural)]
pub enum WindowMode {
    Fullscreen,
    Windowed,
}

} // verus!
