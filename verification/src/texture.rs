//! Decoded textures: pixel dimensions, the RGBA pixel buffer, and the quad
//! geometry derived from the dimensions. Decoding the encoded bytes is the
//! one outside call of the library.

use vstd::prelude::*;
use crate::geometry::{Vertex, build_quad, quad_indices, quad_vertices};
use crate::loader::ResourceId;

verus! {

/// A three-dimensional pixel extent; for a 2D texture the depth is 1.
#[derive(Clone, Copy, Debug, PartialEq, Eq, Structural)]
pub struct Extent3d {
    pub width: u32,
    pub height: u32,
    pub depth_or_array_layers: u32,
}

/// The largest texture side length the transform arithmetic admits:
/// it keeps every anchor shift inside the fixed-point coordinate range.
pub const MAX_TEXTURE_DIM: u32 = 16384;

/// An extent small enough for the fixed-point transform arithmetic.
pub open spec fn extent_in_range(e: Extent3d) -> bool {
    &&& e.width <= MAX_TEXTURE_DIM
    &&& e.height <= MAX_TEXTURE_DIM
}

/// The dimensions the decoder yields for these bytes, or nothing when the
/// bytes are not a decodable image. A pure function of the bytes.
pub uninterp spec fn decoded_dims(bytes: Seq<u8>) -> Option<(u32, u32)>;

/// The RGBA8 pixel buffer the decoder yields for these bytes; meaningful
/// only where `decoded_dims` yields dimensions. A pure function of the
/// bytes.
pub uninterp spec fn decoded_rgba(bytes: Seq<u8>) -> Seq<u8>;

/// The bytes form a decodable image.
pub open spec fn decode_ok(bytes: Seq<u8>) -> bool {
    decoded_dims(bytes) is Some
}

/// The bytes decode to an image small enough for the transform arithmetic.
pub open spec fn decode_fits(bytes: Seq<u8>) -> bool {
    match decoded_dims(bytes) {
        Some(d) => d.0 <= MAX_TEXTURE_DIM && d.1 <= MAX_TEXTURE_DIM,
        None => false,
    }
}

/// Relies on image::load_from_memory (the format sniffed from the bytes)
/// together with DynamicImage::to_rgba8: the decode is a pure function of
/// the bytes, and the RGBA8 buffer holds four bytes per pixel.
#[verifier::external_body]
fn decode_image(bytes: &Vec<u8>) -> (r: Option<(Vec<u8>, u32, u32)>)
    ensures
        match r {
            Some(d) => {
                &&& decoded_dims(bytes@) == Some((d.1, d.2))
                &&& d.0@ == decoded_rgba(bytes@)
                &&& d.0@.len() == 4 * (d.1 as int) * (d.2 as int)
            },
            None => decoded_dims(bytes@) is None,
        },
{
    match image::load_from_memory(bytes) {
        Ok(img) => {
            let rgba = img.to_rgba8();
            let (w, h) = rgba.dimensions();
            Some((rgba.into_raw(), w, h))
        }
        Err(_) => None,
    }
}

/// A decoded texture: stable id, name, pixel extent (depth 1), RGBA8
/// pixels, and the quad geometry for its extent. Immutable after
/// construction.
#[derive(Clone, Debug, PartialEq)]
pub struct Texture {
    pub name: String,
    pub id: ResourceId,
    pub size: Extent3d,
    pub pixels: Vec<u8>,
    pub vertices: Vec<Vertex>,
    pub indices: Vec<u16>,
}

impl Texture {
    /// The derived parts agree with the extent: depth 1, an extent the
    /// transform arithmetic accepts, four pixel bytes per texel, and the
    /// quad geometry of the extent.
    pub open spec fn wf(self) -> bool {
        &&& self.size.depth_or_array_layers == 1
        &&& extent_in_range(self.size)
        &&& self.pixels@.len() == 4 * (self.size.width as int) * (self.size.height as int)
        &&& self.vertices@ == quad_vertices(self.size.width as int, self.size.height as int)
        &&& self.indices@ == quad_indices()
    }

    /// Decode an image and build its texture. The bytes must form a
    /// decodable image of admissible size; `try_new` checks that first.
    pub fn new(id: ResourceId, name: &str, bytes: &Vec<u8>) -> (r: Texture)
        requires
            decode_fits(bytes@),
        ensures
            r.wf(),
            r.id == id,
            r.name@ == name@,
            Some((r.size.width, r.size.height)) == decoded_dims(bytes@),
            r.pixels@ == decoded_rgba(bytes@),
    {
        match decode_image(bytes) {
            Some((pixels, width, height)) => {
                Texture::from_image(name, width, height, pixels, id)
            },
            None => vstd::pervasive::unreached(),
        }
    }

    /// Decode an image and build its texture, or yield nothing when the
    /// bytes do not decode or the image is too large for the transform
    /// arithmetic.
    pub fn try_new(id: ResourceId, name: &str, bytes: &Vec<u8>) -> (r: Option<Texture>)
        ensures
            r is Some <==> decode_fits(bytes@),
            match r {
                Some(t) => {
                    &&& t.wf()
                    &&& t.id == id
                    &&& t.name@ == name@
                    &&& Some((t.size.width, t.size.height)) == decoded_dims(bytes@)
                    &&& t.pixels@ == decoded_rgba(bytes@)
                },
                None => true,
            },
    {
        match decode_image(bytes) {
            Some((pixels, width, height)) => {
                if width <= MAX_TEXTURE_DIM && height <= MAX_TEXTURE_DIM {
                    Some(Texture::new(id, name, bytes))
                } else {
                    None
                }
            },
            None => None,
        }
    }

    /// Build a texture from already-decoded pixels.
    pub fn from_image(name: &str, width: u32, height: u32, pixels: Vec<u8>, id: ResourceId)
        -> (r: Texture)
        requires
            width <= MAX_TEXTURE_DIM,
            height <= MAX_TEXTURE_DIM,
            pixels@.len() == 4 * (width as int) * (height as int),
        ensures
            r.wf(),
            r.id == id,
            r.name@ == name@,
            r.size == (Extent3d { width, height, depth_or_array_layers: 1 }),
            r.pixels@ == pixels@,
    {
        let size = Extent3d { width, height, depth_or_array_layers: 1 };
        let (vertices, indices) = build_quad(width, height);
        Texture { name: name.to_owned(), id, size, pixels, vertices, indices }
    }
}

} // verus!
