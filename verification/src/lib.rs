//! A small 2D sprite engine: fixed-point transform math, quad geometry,
//! a texture loader with a built-in fallback, and the renderer's
//! batching and caching logic, all verified.

use vstd::prelude::*;

pub mod application;
pub mod camera;
pub mod fixed;
pub mod game;
pub mod geometry;
pub mod input;
pub mod instance;
pub mod loader;
pub mod matrix;
pub mod renderer;
pub mod sprite;
pub mod stage;
pub mod text;
pub mod texture;
pub mod window;

pub use camera::Camera2D;
pub use input::Input;
pub use loader::Loader;
pub use renderer::Renderer;
pub use sprite::Sprite;
pub use stage::Stage;
pub use text::Text;
pub use texture::Texture;

verus! {

/// Frame timing shared with the simulation: durations are carried as
/// microseconds so that the arithmetic on them stays exact.
pub struct Time {
    pub elapsed_micros: u64,
    pub delta_micros: u64,
    pub frames: u32,
}

impl Time {
    /// A fresh clock: nothing elapsed, no frames rendered yet.
    pub fn default() -> (r: Time)
        ensures
            r.elapsed_micros == 0,
            r.delta_micros == 0,
            r.frames == 0,
    {
        Time { elapsed_micros: 0, delta_micros: 0, frames: 0 }
    }
}

} // verus!
