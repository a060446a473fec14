//! Sprites: a texture reference plus a transform. Every mutator rewrites
//! the public field and the derived `Instance` together, so the derived
//! state can never go stale; the flattened matrix read by the renderer is
//! always the composition of the latest field values.

use vstd::prelude::*;
use crate::fixed::FX_ONE;
use crate::instance::{
    Instance, MAX_COORD, Rotation, Vec3, instance_in_range, raw_instance,
};
use crate::loader::ResourceId;
use crate::matrix::{Mat4, SMat};
use crate::texture::{Extent3d, extent_in_range};

verus! {

/// A renderable entity: a texture id and a transform, with the derived
/// per-instance state kept consistent eagerly.
#[derive(Clone, Copy, Debug, PartialEq)]
pub struct Sprite {
    pub texture_id: ResourceId,
    pub rotation: Rotation,
    pub position: Vec3,
    pub scale: Vec3,
    pub anchor: Vec3,
    /// The derived per-instance state; only the mutators write it.
    pub instance: Instance,
}

/// The transform an observer sees in the sprite's public fields.
pub open spec fn public_transform(s: Sprite) -> Instance {
    Instance { scale: s.scale, anchor: s.anchor, position: s.position, rotation: s.rotation }
}

/// The matrix the sprite must hand the renderer for a texture of extent
/// `size`: the pure composition applied to the latest field values.
pub open spec fn sprite_raw(s: Sprite, size: Extent3d) -> SMat {
    raw_instance(public_transform(s), size)
}

impl Sprite {
    /// The derived state mirrors the public fields and stays inside the
    /// fixed-point range.
    pub open spec fn wf(self) -> bool {
        &&& self.instance == public_transform(self)
        &&& instance_in_range(self.instance)
    }

    /// A sprite over the given texture with the identity transform.
    pub fn new(texture_id: ResourceId) -> (r: Sprite)
        ensures
            r.wf(),
            r.texture_id == texture_id,
            r.rotation == (Rotation { cos: FX_ONE, sin: 0 }),
            r.position == (Vec3 { x: 0, y: 0, z: 0 }),
            r.scale == (Vec3 { x: FX_ONE, y: FX_ONE, z: FX_ONE }),
            r.anchor == (Vec3 { x: 0, y: 0, z: 0 }),
    {
        let instance = Instance::identity();
        Sprite {
            texture_id,
            rotation: instance.rotation,
            position: instance.position,
            scale: instance.scale,
            anchor: instance.anchor,
            instance,
        }
    }

    /// Overwrite the scale and recompute the derived state.
    pub fn set_scale(&mut self, x: i64, y: i64)
        requires
            old(self).wf(),
            -MAX_COORD <= x <= MAX_COORD,
            -MAX_COORD <= y <= MAX_COORD,
        ensures
            final(self).wf(),
            final(self).scale == (Vec3 { x, y, z: old(self).scale.z }),
            final(self).texture_id == old(self).texture_id,
            final(self).rotation == old(self).rotation,
            final(self).position == old(self).position,
            final(self).anchor == old(self).anchor,
    {
        self.scale.x = x;
        self.scale.y = y;
        self.instance.scale.x = x;
        self.instance.scale.y = y;
    }

    /// Overwrite the position and recompute the derived state.
    pub fn set_position(&mut self, x: i64, y: i64)
        requires
            old(self).wf(),
            -MAX_COORD <= x <= MAX_COORD,
            -MAX_COORD <= y <= MAX_COORD,
        ensures
            final(self).wf(),
            final(self).position == (Vec3 { x, y, z: old(self).position.z }),
            final(self).texture_id == old(self).texture_id,
            final(self).rotation == old(self).rotation,
            final(self).scale == old(self).scale,
            final(self).anchor == old(self).anchor,
    {
        self.position.x = x;
        self.position.y = y;
        self.instance.position.x = x;
        self.instance.position.y = y;
    }

    /// Overwrite the rotation and recompute the derived state.
    pub fn set_rotation(&mut self, rotation: Rotation)
        requires
            old(self).wf(),
            -FX_ONE <= rotation.cos <= FX_ONE,
            -FX_ONE <= rotation.sin <= FX_ONE,
        ensures
            final(self).wf(),
            final(self).rotation == rotation,
            final(self).texture_id == old(self).texture_id,
            final(self).position == old(self).position,
            final(self).scale == old(self).scale,
            final(self).anchor == old(self).anchor,
    {
        self.rotation = rotation;
        self.instance.rotation = rotation;
    }

    /// Overwrite the anchor and recompute the derived state.
    pub fn set_anchor(&mut self, x: i64, y: i64)
        requires
            old(self).wf(),
            -FX_ONE <= x <= FX_ONE,
            -FX_ONE <= y <= FX_ONE,
        ensures
            final(self).wf(),
            final(self).anchor == (Vec3 { x, y, z: old(self).anchor.z }),
            final(self).texture_id == old(self).texture_id,
            final(self).rotation == old(self).rotation,
            final(self).position == old(self).position,
            final(self).scale == old(self).scale,
    {
        self.anchor.x = x;
        self.anchor.y = y;
        self.instance.anchor.x = x;
        self.instance.anchor.y = y;
    }

    /// The flattened instance matrix for a texture of extent `size`. It is
    /// computed from the derived state, which the invariant pins to the
    /// latest public field values: a read immediately after any sequence of
    /// mutations reflects exactly those values.
    pub fn get_raw_instance(&self, size: &Extent3d) -> (r: Mat4)
        requires
            self.wf(),
            extent_in_range(*size),
        ensures
            r@ == sprite_raw(*self, *size),
    {
        self.instance.to_raw(size)
    }
}

/// A read can never be stale: for a well-formed sprite the matrix built
/// from the derived state equals the pure composition applied to the
/// latest public field values, whatever sequence of mutations produced
/// them.
pub proof fn lemma_reads_are_never_stale(s: Sprite, size: Extent3d)
    requires
        s.wf(),
    ensures
        raw_instance(s.instance, size) == sprite_raw(s, size),
{
}

} // verus!
