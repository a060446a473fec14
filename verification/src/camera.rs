//! The orthographic 2D camera. Its view-projection matrix is the fixed
//! depth-range remap, times the symmetric orthographic projection for the
//! viewport, times the fixed look-at view (eye one unit before the origin,
//! up along +Y). `resize` is the only mutator; a resize to a degenerate
//! extent is a no-op.

use vstd::prelude::*;
use vstd::arithmetic::div_mod::{lemma_div_is_ordered_by_denominator, lemma_div_pos_is_pos};
use crate::fixed::{FX_ONE, fx_div, div_fx};
use crate::instance::{Vec3, strans};
use crate::matrix::{Mat4, SMat, smat_mul, smat_identity, smat_bounded};

verus! {

/// The depth-range remap: the clip-space convention of the projection math
/// maps depth to `-1..1`; the render target expects `0..1`. Identity on x
/// and y, scale one half and bias one half on z.
pub open spec fn sremap() -> SMat {
    SMat {
        m00: 65536, m01: 0, m02: 0, m03: 0,
        m10: 0, m11: 65536, m12: 0, m13: 0,
        m20: 0, m21: 0, m22: 32768, m23: 0,
        m30: 0, m31: 0, m32: 32768, m33: 65536,
    }
}

/// The symmetric orthographic projection for a `w × h` viewport with
/// half-extents `w/2` and `h/2` and a near/far range of `-100..100`.
pub open spec fn sortho(w: int, h: int) -> SMat
    recommends
        w > 0,
        h > 0,
{
    SMat {
        m00: fx_div(2int * 65536, w * 65536), m01: 0, m02: 0, m03: 0,
        m10: 0, m11: fx_div(2int * 65536, h * 65536), m12: 0, m13: 0,
        m20: 0, m21: 0, m22: fx_div(-2int * 65536, 200int * 65536), m23: 0,
        m30: 0, m31: 0, m32: 0, m33: 65536,
    }
}

/// The fixed look-at view: the eye sits one unit before the origin looking
/// at it with +Y up, so the view is the translation by minus one along z.
pub open spec fn sview() -> SMat {
    strans(0, 0, -65536)
}

/// The combined view-projection matrix for a `w × h` viewport.
pub open spec fn camera_view_proj(w: int, h: int) -> SMat
    recommends
        w > 0,
        h > 0,
{
    smat_mul(smat_mul(sremap(), sortho(w, h)), sview())
}

/// The matrix mirrored into the camera's GPU-resident uniform buffer.
#[derive(Clone, Copy, Debug, PartialEq, Eq, Structural)]
pub struct CameraUniform {
    pub view_proj: Mat4,
}

impl CameraUniform {
    /// A fresh uniform holding the identity matrix.
    pub fn new() -> (r: CameraUniform)
        ensures
            r.view_proj@ == smat_identity(),
    {
        CameraUniform { view_proj: Mat4::identity() }
    }

    /// Overwrite the mirrored matrix.
    pub fn update_view_proj(&mut self, matrix: Mat4)
        ensures
            final(self).view_proj == matrix,
    {
        self.view_proj = matrix;
    }
}

/// The orthographic 2D camera: viewport extent in device pixels, the fixed
/// eye/target/up geometry, and the uniform mirroring the view-projection
/// matrix last pushed to the GPU.
#[derive(Clone, Copy, Debug, PartialEq, Eq, Structural)]
pub struct Camera2D {
    pub width: u32,
    pub height: u32,
    pub position: Vec3,
    pub target: Vec3,
    pub up: Vec3,
    pub uniform: CameraUniform,
}

/// The eye's fixed place: one unit before the origin.
pub open spec fn default_eye() -> Vec3 {
    Vec3 { x: 0, y: 0, z: 65536 }
}

impl Camera2D {
    /// The camera holds the fixed 2D geometry: eye one unit before the
    /// origin, looking at the origin, up along +Y.
    pub open spec fn wf(self) -> bool {
        &&& self.position == default_eye()
        &&& self.target == (Vec3 { x: 0, y: 0, z: 0 })
        &&& self.up == (Vec3 { x: 0, y: 65536, z: 0 })
    }

    /// A fresh camera with an empty viewport and an identity uniform; the
    /// first real resize fills both in.
    pub fn new() -> (r: Camera2D)
        ensures
            r.wf(),
            r.width == 0,
            r.height == 0,
            r.uniform.view_proj@ == smat_identity(),
    {
        Camera2D {
            width: 0,
            height: 0,
            position: Vec3 { x: 0, y: 0, z: FX_ONE },
            target: Vec3 { x: 0, y: 0, z: 0 },
            up: Vec3 { x: 0, y: FX_ONE, z: 0 },
            uniform: CameraUniform::new(),
        }
    }

    /// Move the eye. The projection math holds only for the fixed 2D
    /// geometry, so `resize` demands the eye back at its default place.
    pub fn set_position(&mut self, position: Vec3)
        ensures
            *final(self) == (Camera2D { position, ..*old(self) }),
    {
        self.position = position;
    }

    /// The view-projection matrix for the current viewport.
    pub fn build_view_projection_matrix(&self) -> (r: Mat4)
        requires
            self.wf(),
            self.width > 0,
            self.height > 0,
        ensures
            r@ == camera_view_proj(self.width as int, self.height as int),
    {
        let remap = Mat4 {
            m00: FX_ONE, m01: 0, m02: 0, m03: 0,
            m10: 0, m11: FX_ONE, m12: 0, m13: 0,
            m20: 0, m21: 0, m22: 32768, m23: 0,
            m30: 0, m31: 0, m32: 32768, m33: FX_ONE,
        };
        let wfx: i64 = (self.width as i64) * FX_ONE;
        let hfx: i64 = (self.height as i64) * FX_ONE;
        let ow: i64 = div_fx(2 * FX_ONE, wfx);
        let oh: i64 = div_fx(2 * FX_ONE, hfx);
        let oz: i64 = div_fx(-2 * FX_ONE, 200 * FX_ONE);
        proof {
            lemma_div_pos_is_pos(131072int * 65536, wfx as int);
            lemma_div_pos_is_pos(131072int * 65536, hfx as int);
            lemma_div_is_ordered_by_denominator(131072int * 65536, 65536, wfx as int);
            lemma_div_is_ordered_by_denominator(131072int * 65536, 65536, hfx as int);
        }
        let ortho = Mat4 {
            m00: ow, m01: 0, m02: 0, m03: 0,
            m10: 0, m11: oh, m12: 0, m13: 0,
            m20: 0, m21: 0, m22: oz, m23: 0,
            m30: 0, m31: 0, m32: 0, m33: FX_ONE,
        };
        let view = Mat4 {
            m00: FX_ONE, m01: 0, m02: 0, m03: 0,
            m10: 0, m11: FX_ONE, m12: 0, m13: 0,
            m20: 0, m21: 0, m22: FX_ONE, m23: 0,
            m30: 0, m31: 0, m32: -FX_ONE, m33: FX_ONE,
        };
        let ghost ortho_bound: int = 131072int * 65536 / 65536;
        assert(smat_bounded(ortho@, ortho_bound));
        let rp = remap.matmul(&ortho, Ghost(65536), Ghost(ortho_bound));
        rp.matmul(&view, Ghost(4 * ((65536 * ortho_bound) / 65536 + 1)), Ghost(65536))
    }

    /// Resize the viewport. A degenerate extent (either dimension zero,
    /// as during a window minimize) changes nothing — neither the stored
    /// matrix nor the mirrored uniform; otherwise the view-projection
    /// matrix is recomputed and the uniform rewritten, and the caller must
    /// push it to the GPU buffer.
    pub fn resize(&mut self, width: u32, height: u32) -> (changed: bool)
        requires
            old(self).wf(),
        ensures
            final(self).wf(),
            width == 0 || height == 0 ==> *final(self) == *old(self) && !changed,
            width > 0 && height > 0 ==> {
                &&& changed
                &&& final(self).width == width
                &&& final(self).height == height
                &&& final(self).uniform.view_proj@ == camera_view_proj(
                    width as int, height as int)
                &&& final(self).position == old(self).position
                &&& final(self).target == old(self).target
                &&& final(self).up == old(self).up
            },
    {
        if width > 0 && height > 0 {
            self.width = width;
            self.height = height;
            let matrix = self.build_view_projection_matrix();
            self.uniform.update_view_proj(matrix);
            true
        } else {
            false
        }
    }
}

} // verus!
