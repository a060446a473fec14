//! Per-sprite transform state and its model matrix. The matrix is the
//! composition `translate(position) · rotate(rotation) · scale(scale) ·
//! translate(anchor shift)`, evaluated in fixed-point arithmetic; the anchor
//! shift is the anchor scaled by the texture's pixel extent.

use vstd::prelude::*;
use crate::fixed::{FX_ONE, fx_mul, lemma_fx_mul_unit};
use crate::matrix::{Mat4, SMat, smat_mul, smat_identity, mul_fx_in};
use crate::texture::{Extent3d, extent_in_range};

verus! {

/// A fixed-point 3-vector.
#[derive(Clone, Copy, Debug, PartialEq, Eq, Structural)]
pub struct Vec3 {
    pub x: i64,
    pub y: i64,
    pub z: i64,
}

/// A rotation about the axis normal to the 2D plane, carried as the
/// fixed-point cosine and sine of the angle.
#[derive(Clone, Copy, Debug, PartialEq, Eq, Structural)]
pub struct Rotation {
    pub cos: i64,
    pub sin: i64,
}

impl Rotation {
    /// The rotation by zero radians.
    pub fn identity() -> (r: Rotation)
        ensures
            r.cos == FX_ONE,
            r.sin == 0,
    {
        Rotation { cos: FX_ONE, sin: 0 }
    }
}

/// Per-sprite transform state: non-uniform scale, anchor, world position
/// and planar rotation.
#[derive(Clone, Copy, Debug, PartialEq, Eq, Structural)]
pub struct Instance {
    pub scale: Vec3,
    pub anchor: Vec3,
    pub position: Vec3,
    pub rotation: Rotation,
}

/// The translation matrix by `(x, y, z)`.
pub open spec fn strans(x: int, y: int, z: int) -> SMat {
    SMat {
        m00: 65536, m01: 0, m02: 0, m03: 0,
        m10: 0, m11: 65536, m12: 0, m13: 0,
        m20: 0, m21: 0, m22: 65536, m23: 0,
        m30: x, m31: y, m32: z, m33: 65536,
    }
}

/// The rotation matrix about the plane normal, from cosine and sine.
pub open spec fn srot_z(c: int, s: int) -> SMat {
    SMat {
        m00: c, m01: s, m02: 0, m03: 0,
        m10: -s, m11: c, m12: 0, m13: 0,
        m20: 0, m21: 0, m22: 65536, m23: 0,
        m30: 0, m31: 0, m32: 0, m33: 65536,
    }
}

/// The non-uniform scale matrix.
pub open spec fn sscale(x: int, y: int, z: int) -> SMat {
    SMat {
        m00: x, m01: 0, m02: 0, m03: 0,
        m10: 0, m11: y, m12: 0, m13: 0,
        m20: 0, m21: 0, m22: z, m23: 0,
        m30: 0, m31: 0, m32: 0, m33: 65536,
    }
}

/// The model matrix: world translation, then rotation, then scale, then the
/// anchor shift, multiplied left to right exactly as they are applied to a
/// vertex right to left.
pub open spec fn instance_matrix(
    px: int, py: int, c: int, s: int, sx: int, sy: int, sz: int, ax: int, ay: int,
) -> SMat {
    smat_mul(
        smat_mul(smat_mul(strans(px, py, 0), srot_z(c, s)), sscale(sx, sy, sz)),
        strans(ax, ay, 0),
    )
}

/// What the composition works out to, entry by entry.
pub open spec fn instance_matrix_closed(
    px: int, py: int, c: int, s: int, sx: int, sy: int, sz: int, ax: int, ay: int,
) -> SMat {
    SMat {
        m00: fx_mul(c, sx), m01: fx_mul(s, sx), m02: 0, m03: 0,
        m10: fx_mul(-s, sy), m11: fx_mul(c, sy), m12: 0, m13: 0,
        m20: 0, m21: 0, m22: sz, m23: 0,
        m30: fx_mul(fx_mul(c, sx), ax) + fx_mul(fx_mul(-s, sy), ay) + px,
        m31: fx_mul(fx_mul(s, sx), ax) + fx_mul(fx_mul(c, sy), ay) + py,
        m32: 0, m33: 65536,
    }
}

/// The composed model matrix equals its closed form.
pub proof fn lemma_instance_matrix_form(
    px: int, py: int, c: int, s: int, sx: int, sy: int, sz: int, ax: int, ay: int,
)
    ensures
        instance_matrix(px, py, c, s, sx, sy, sz, ax, ay)
            == instance_matrix_closed(px, py, c, s, sx, sy, sz, ax, ay),
{
    lemma_fx_mul_unit(c);
    lemma_fx_mul_unit(s);
    lemma_fx_mul_unit(-s);
    lemma_fx_mul_unit(sx);
    lemma_fx_mul_unit(sy);
    lemma_fx_mul_unit(sz);
    lemma_fx_mul_unit(px);
    lemma_fx_mul_unit(py);
    lemma_fx_mul_unit(ax);
    lemma_fx_mul_unit(ay);
    lemma_fx_mul_unit(0);
    lemma_fx_mul_unit(65536);
    lemma_fx_mul_unit(fx_mul(c, sx));
    lemma_fx_mul_unit(fx_mul(s, sx));
    lemma_fx_mul_unit(fx_mul(-s, sy));
    lemma_fx_mul_unit(fx_mul(c, sy));
    let tr = smat_mul(strans(px, py, 0), srot_z(c, s));
    assert(tr == SMat {
        m00: c, m01: s, m02: 0, m03: 0,
        m10: -s, m11: c, m12: 0, m13: 0,
        m20: 0, m21: 0, m22: 65536, m23: 0,
        m30: px, m31: py, m32: 0, m33: 65536,
    });
    let trs = smat_mul(tr, sscale(sx, sy, sz));
    assert(trs == SMat {
        m00: fx_mul(c, sx), m01: fx_mul(s, sx), m02: 0, m03: 0,
        m10: fx_mul(-s, sy), m11: fx_mul(c, sy), m12: 0, m13: 0,
        m20: 0, m21: 0, m22: sz, m23: 0,
        m30: px, m31: py, m32: 0, m33: 65536,
    });
}

/// The bound on positions and scales that keeps the matrix arithmetic
/// inside `i64`.
pub const MAX_COORD: i64 = 0x4000_0000;

/// The transform's components are small enough for the fixed-point
/// arithmetic: coordinates within the coordinate range, the rotation's
/// cosine and sine at most one, the anchor at most one in magnitude.
pub open spec fn instance_in_range(i: Instance) -> bool {
    &&& -MAX_COORD <= i.position.x <= MAX_COORD
    &&& -MAX_COORD <= i.position.y <= MAX_COORD
    &&& -MAX_COORD <= i.position.z <= MAX_COORD
    &&& -MAX_COORD <= i.scale.x <= MAX_COORD
    &&& -MAX_COORD <= i.scale.y <= MAX_COORD
    &&& -MAX_COORD <= i.scale.z <= MAX_COORD
    &&& -FX_ONE <= i.rotation.cos <= FX_ONE
    &&& -FX_ONE <= i.rotation.sin <= FX_ONE
    &&& -FX_ONE <= i.anchor.x <= FX_ONE
    &&& -FX_ONE <= i.anchor.y <= FX_ONE
}

/// The model matrix of an instance for a texture of the given extent: the
/// anchor shift is the anchor scaled by the extent, with the horizontal
/// component negated (the quad's height extends downward).
pub open spec fn raw_instance(i: Instance, size: Extent3d) -> SMat {
    instance_matrix(
        i.position.x as int,
        i.position.y as int,
        i.rotation.cos as int,
        i.rotation.sin as int,
        i.scale.x as int,
        i.scale.y as int,
        i.scale.z as int,
        (size.width as int) * (-(i.anchor.x as int)),
        (size.height as int) * (i.anchor.y as int),
    )
}

/// The identity transform as a value: no translation, no rotation, unit
/// scale, anchor at the origin.
pub open spec fn identity_instance() -> Instance {
    Instance {
        scale: Vec3 { x: 65536, y: 65536, z: 65536 },
        anchor: Vec3 { x: 0, y: 0, z: 0 },
        position: Vec3 { x: 0, y: 0, z: 0 },
        rotation: Rotation { cos: 65536, sin: 0 },
    }
}

impl Instance {
    /// The identity transform: no translation, no rotation, unit scale,
    /// anchor at the origin.
    pub fn identity() -> (r: Instance)
        ensures
            r.scale == (Vec3 { x: FX_ONE, y: FX_ONE, z: FX_ONE }),
            r.anchor == (Vec3 { x: 0, y: 0, z: 0 }),
            r.position == (Vec3 { x: 0, y: 0, z: 0 }),
            r.rotation == (Rotation { cos: FX_ONE, sin: 0 }),
            r == identity_instance(),
            instance_in_range(r),
    {
        Instance {
            scale: Vec3 { x: FX_ONE, y: FX_ONE, z: FX_ONE },
            anchor: Vec3 { x: 0, y: 0, z: 0 },
            position: Vec3 { x: 0, y: 0, z: 0 },
            rotation: Rotation { cos: FX_ONE, sin: 0 },
        }
    }

    /// The flattened model matrix for a texture of extent `size`, exactly
    /// the composition of the transform's components.
    pub fn to_raw(&self, size: &Extent3d) -> (r: Mat4)
        requires
            instance_in_range(*self),
            extent_in_range(*size),
        ensures
            r@ == raw_instance(*self, *size),
    {
        let ghost one: int = 65536;
        let ghost coord: int = 0x4000_0000;
        proof {
            crate::fixed::lemma_abs_mul_le(
                size.width as int, -(self.anchor.x as int), 16384, one);
            crate::fixed::lemma_abs_mul_le(
                size.height as int, self.anchor.y as int, 16384, one);
        }
        let axs: i64 = (size.width as i64) * (-self.anchor.x);
        let ays: i64 = (size.height as i64) * (self.anchor.y);
        let c = self.rotation.cos;
        let s = self.rotation.sin;
        let e00: i64 = mul_fx_in(c, self.scale.x, Ghost(one), Ghost(coord));
        let e01: i64 = mul_fx_in(s, self.scale.x, Ghost(one), Ghost(coord));
        let e10: i64 = mul_fx_in(-s, self.scale.y, Ghost(one), Ghost(coord));
        let e11: i64 = mul_fx_in(c, self.scale.y, Ghost(one), Ghost(coord));
        let e30: i64 = mul_fx_in(e00, axs, Ghost(coord + 1), Ghost(coord))
            + mul_fx_in(e10, ays, Ghost(coord + 1), Ghost(coord))
            + self.position.x;
        let e31: i64 = mul_fx_in(e01, axs, Ghost(coord + 1), Ghost(coord))
            + mul_fx_in(e11, ays, Ghost(coord + 1), Ghost(coord))
            + self.position.y;
        proof {
            lemma_instance_matrix_form(
                self.position.x as int,
                self.position.y as int,
                c as int,
                s as int,
                self.scale.x as int,
                self.scale.y as int,
                self.scale.z as int,
                axs as int,
                ays as int,
            );
        }
        Mat4 {
            m00: e00, m01: e01, m02: 0, m03: 0,
            m10: e10, m11: e11, m12: 0, m13: 0,
            m20: 0, m21: 0, m22: self.scale.z, m23: 0,
            m30: e30, m31: e31, m32: 0, m33: FX_ONE,
        }
    }
}

impl Default for Instance {
    /// The identity transform, as `Instance::identity` builds it.
    fn default() -> (r: Instance)
        ensures
            r == identity_instance(),
    {
        Instance::identity()
    }
}

/// The identity transform (no translation, rotation by zero radians, unit
/// scale, anchor at the origin) has the identity model matrix, whatever the
/// texture's extent.
pub proof fn lemma_identity_instance(i: Instance, size: Extent3d)
    requires
        i.position == (Vec3 { x: 0, y: 0, z: 0 }),
        i.rotation == (Rotation { cos: FX_ONE, sin: 0 }),
        i.scale == (Vec3 { x: FX_ONE, y: FX_ONE, z: FX_ONE }),
        i.anchor == (Vec3 { x: 0, y: 0, z: 0 }),
    ensures
        raw_instance(i, size) == smat_identity(),
{
    let w = size.width as int;
    let h = size.height as int;
    assert(w * (-0int) == 0) by (nonlinear_arith);
    assert(h * 0int == 0) by (nonlinear_arith);
    lemma_instance_matrix_form(0, 0, 65536, 0, 65536, 65536, 65536, 0, 0);
    lemma_fx_mul_unit(65536);
    lemma_fx_mul_unit(0);
    lemma_fx_mul_unit(fx_mul(65536, 65536));
    lemma_fx_mul_unit(fx_mul(0, 65536));
    lemma_fx_mul_unit(fx_mul(-0, 65536));
}

} // verus!
