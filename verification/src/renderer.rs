//! The renderer's frame logic: the persistent per-texture cache, the
//! per-frame batching of sprite instances by texture id, and the closed set
//! of surface-acquisition outcomes. The GPU itself is driven by the shell,
//! which executes the `FramePlan` this module computes: one upload per
//! texture first seen, then one instanced draw call per texture in use.

use vstd::prelude::*;
use crate::loader::{Loader, ResourceId};
use crate::matrix::{Mat4, SMat};
use crate::sprite::{Sprite, sprite_raw};

verus! {

/// The model of one persistent per-texture cache entry; the GPU-side bind
/// group and vertex/index buffers live with the shell, keyed by the same
/// id.
#[derive(Clone, Copy, Debug, PartialEq, Eq, Structural)]
pub struct TextureData {
    pub num_indices: u32,
}

/// The closed set of surface-acquisition failures.
#[derive(Clone, Copy, Debug, PartialEq, Eq, Structural)]
pub enum SurfaceError {
    Timeout,
    Outdated,
    Lost,
    OutOfMemory,
}

/// What acquiring the next drawable surface texture yielded.
#[derive(Clone, Copy, Debug, PartialEq, Eq, Structural)]
pub enum SurfaceStatus {
    Acquired,
    Failed(SurfaceError),
}

/// How the frame loop must react to a failed frame.
#[derive(Clone, Copy, Debug, PartialEq, Eq, Structural)]
pub enum RenderRecovery {
    /// Reconfigure the surface (a resize with no new size) and skip the
    /// frame.
    Reconfigure,
    /// Unrecoverable: terminate the process.
    Terminate,
    /// Log and skip the frame; the loop continues.
    SkipFrame,
}

/// One instanced draw call: the texture to bind, the instance matrices to
/// upload fresh, and the index count of the quad.
#[derive(Clone, Debug, PartialEq)]
pub struct DrawCall {
    pub texture_id: ResourceId,
    pub instances: Vec<Mat4>,
    pub num_indices: u32,
}

/// Everything the shell must do to the GPU for one frame: create the cache
/// entries for textures first seen this frame, then issue the draw calls.
#[derive(Clone, Debug, PartialEq)]
pub struct FramePlan {
    pub uploads: Vec<ResourceId>,
    pub draws: Vec<DrawCall>,
}

/// A window extent in device pixels.
#[derive(Clone, Copy, Debug, PartialEq, Eq, Structural)]
pub struct WindowSize {
    pub width: u32,
    pub height: u32,
}

/// The texture id a sprite resolves to: the id of the texture the loader
/// yields for it, which is the sprite's own id when loaded and 0 (the
/// default texture) otherwise.
pub open spec fn resolved_id(loader: Loader, s: Sprite) -> ResourceId {
    loader.texture_of(s.texture_id).id
}

/// The matrix a sprite contributes, built against its resolved texture's
/// extent.
pub open spec fn sprite_matrix(loader: Loader, s: Sprite) -> SMat {
    sprite_raw(s, loader.texture_of(s.texture_id).size)
}

/// The distinct resolved texture ids of the sprites, in order of first
/// occurrence: the draw order of the frame.
pub open spec fn first_ids(loader: Loader, sprites: Seq<Sprite>) -> Seq<ResourceId>
    decreases sprites.len(),
{
    if sprites.len() == 0 {
        Seq::empty()
    } else {
        let pre = first_ids(loader, sprites.drop_last());
        let id = resolved_id(loader, sprites.last());
        if pre.contains(id) {
            pre
        } else {
            pre.push(id)
        }
    }
}

/// The instance matrices of every sprite resolving to `id`, in sprite
/// order.
pub open spec fn instances_for(loader: Loader, sprites: Seq<Sprite>, id: ResourceId) -> Seq<SMat>
    decreases sprites.len(),
{
    if sprites.len() == 0 {
        Seq::empty()
    } else {
        let pre = instances_for(loader, sprites.drop_last(), id);
        if resolved_id(loader, sprites.last()) == id {
            pre.push(sprite_matrix(loader, sprites.last()))
        } else {
            pre
        }
    }
}

/// How many sprites resolve to `id`.
pub open spec fn count_resolved(loader: Loader, sprites: Seq<Sprite>, id: ResourceId) -> int
    decreases sprites.len(),
{
    if sprites.len() == 0 {
        0
    } else {
        count_resolved(loader, sprites.drop_last(), id)
            + if resolved_id(loader, sprites.last()) == id { 1int } else { 0int }
    }
}

/// The ids of the cache's entries, in insertion order.
pub open spec fn cache_ids(cache: Seq<(ResourceId, TextureData)>) -> Seq<ResourceId> {
    cache.map_values(|p: (ResourceId, TextureData)| p.0)
}

/// The ids among `ids` that the cache does not hold yet, in order.
pub open spec fn missing_ids(cache: Seq<ResourceId>, ids: Seq<ResourceId>) -> Seq<ResourceId>
    decreases ids.len(),
{
    if ids.len() == 0 {
        Seq::empty()
    } else {
        let pre = missing_ids(cache, ids.drop_last());
        if cache.contains(ids.last()) {
            pre
        } else {
            pre.push(ids.last())
        }
    }
}

/// The views of a vector of matrices.
pub open spec fn views_of(ms: Seq<Mat4>) -> Seq<SMat> {
    ms.map_values(|m: Mat4| m@)
}

/// Batching is per texture: the draw order holds each used id exactly
/// once, an id is drawn exactly when some sprite resolves to it, and the
/// batch for an id holds one instance per sprite resolving to it.
pub proof fn lemma_single_batch(loader: Loader, sprites: Seq<Sprite>, id: ResourceId)
    ensures
        first_ids(loader, sprites).contains(id)
            <==> exists|j: int| 0 <= j < sprites.len()
                && resolved_id(loader, #[trigger] sprites[j]) == id,
        forall|i: int, j: int| 0 <= i < j < first_ids(loader, sprites).len()
            ==> first_ids(loader, sprites)[i] != first_ids(loader, sprites)[j],
        instances_for(loader, sprites, id).len() == count_resolved(loader, sprites, id),
    decreases sprites.len(),
{
    if sprites.len() > 0 {
        lemma_single_batch(loader, sprites.drop_last(), id);
        let pre = first_ids(loader, sprites.drop_last());
        let last_id = resolved_id(loader, sprites.last());
        if first_ids(loader, sprites).contains(id) {
            if pre.contains(id) {
                assert(exists|j: int| 0 <= j < sprites.len() - 1
                    && resolved_id(loader, #[trigger] sprites.drop_last()[j]) == id);
                let j = choose|j: int| 0 <= j < sprites.len() - 1
                    && resolved_id(loader, #[trigger] sprites.drop_last()[j]) == id;
                assert(sprites.drop_last()[j] == sprites[j]);
            } else {
                assert(resolved_id(loader, sprites[sprites.len() - 1]) == id);
            }
        }
        if exists|j: int| 0 <= j < sprites.len()
            && resolved_id(loader, #[trigger] sprites[j]) == id {
            let j = choose|j: int| 0 <= j < sprites.len()
                && resolved_id(loader, #[trigger] sprites[j]) == id;
            if j < sprites.len() - 1 {
                assert(sprites.drop_last()[j] == sprites[j]);
                assert(pre.contains(id));
                if !pre.contains(last_id) {
                    assert(first_ids(loader, sprites) == pre.push(last_id));
                    let w = choose|w: int| 0 <= w < pre.len() && pre[w] == id;
                    assert(first_ids(loader, sprites)[w] == id);
                } else {
                    assert(first_ids(loader, sprites).contains(id));
                }
            } else {
                if !pre.contains(last_id) {
                    assert(first_ids(loader, sprites).last() == id);
                } else {
                    assert(first_ids(loader, sprites).contains(id));
                }
            }
        }
        if !pre.contains(last_id) {
            // Appending a fresh id keeps the ids pairwise distinct.
            assert forall|i: int, j: int| 0 <= i < j < first_ids(loader, sprites).len()
                implies first_ids(loader, sprites)[i] != first_ids(loader, sprites)[j] by {
                if j < first_ids(loader, sprites).len() - 1 {
                } else {
                    assert(pre[i] == first_ids(loader, sprites)[i]);
                    if first_ids(loader, sprites)[i] == last_id {
                        assert(pre.contains(last_id));
                    }
                }
            }
        }
    }
}

/// The renderer's verifiable state: the surface configuration's extent,
/// the persistent per-texture cache, and the per-frame instance-buffer
/// bookkeeping (id and instance count per fresh buffer).
pub struct Renderer {
    pub config_width: u32,
    pub config_height: u32,
    pub render_texture_data: Vec<(ResourceId, TextureData)>,
    pub instance_buffers: Vec<(ResourceId, usize)>,
}

impl Renderer {
    /// Cache entries are keyed by pairwise distinct ids, and every cached
    /// quad has six indices.
    pub open spec fn wf(self) -> bool {
        &&& forall|i: int, j: int|
            0 <= i < j < self.render_texture_data@.len()
            ==> (#[trigger] self.render_texture_data@[i]).0
                != (#[trigger] self.render_texture_data@[j]).0
        &&& forall|i: int| 0 <= i < self.render_texture_data@.len()
            ==> (#[trigger] self.render_texture_data@[i]).1.num_indices == 6
    }

    /// A fresh renderer for a surface of the given extent, with empty
    /// caches. The shell performs the device negotiation and surface
    /// configuration this state mirrors.
    pub fn new(width: u32, height: u32) -> (r: Renderer)
        ensures
            r.wf(),
            r.config_width == width,
            r.config_height == height,
            r.render_texture_data@.len() == 0,
            r.instance_buffers@.len() == 0,
    {
        Renderer {
            config_width: width,
            config_height: height,
            render_texture_data: Vec::new(),
            instance_buffers: Vec::new(),
        }
    }

    /// Apply a resize. With no size given the current configuration is
    /// re-applied (the recovery path after a lost surface); a degenerate
    /// extent is ignored. The result says whether the shell must
    /// reconfigure the surface.
    pub fn resize(&mut self, new_size: Option<WindowSize>) -> (reconfigure: bool)
        requires
            old(self).wf(),
        ensures
            final(self).wf(),
            final(self).render_texture_data@ == old(self).render_texture_data@,
            final(self).instance_buffers@ == old(self).instance_buffers@,
            match new_size {
                Some(sz) => {
                    if sz.width > 0 && sz.height > 0 {
                        &&& reconfigure
                        &&& final(self).config_width == sz.width
                        &&& final(self).config_height == sz.height
                    } else {
                        &&& !reconfigure
                        &&& final(self).config_width == old(self).config_width
                        &&& final(self).config_height == old(self).config_height
                    }
                },
                None => {
                    &&& reconfigure == (old(self).config_width > 0
                        && old(self).config_height > 0)
                    &&& final(self).config_width == old(self).config_width
                    &&& final(self).config_height == old(self).config_height
                },
            },
    {
        let (w, h) = match new_size {
            Some(sz) => (sz.width, sz.height),
            None => (self.config_width, self.config_height),
        };
        if w > 0 && h > 0 {
            self.config_width = w;
            self.config_height = h;
            true
        } else {
            false
        }
    }

    /// How the frame loop must react to each acquisition failure: a lost
    /// surface is reconfigured, out-of-memory is fatal, anything else is
    /// logged and the frame skipped.
    pub fn recovery_for(error: &SurfaceError) -> (r: RenderRecovery)
        ensures
            r == match error {
                SurfaceError::Lost => RenderRecovery::Reconfigure,
                SurfaceError::OutOfMemory => RenderRecovery::Terminate,
                SurfaceError::Timeout => RenderRecovery::SkipFrame,
                SurfaceError::Outdated => RenderRecovery::SkipFrame,
            },
    {
        match error {
            SurfaceError::Lost => RenderRecovery::Reconfigure,
            SurfaceError::OutOfMemory => RenderRecovery::Terminate,
            SurfaceError::Timeout => RenderRecovery::SkipFrame,
            SurfaceError::Outdated => RenderRecovery::SkipFrame,
        }
    }

    /// Record one frame. A failed acquisition is handed back unchanged and
    /// the renderer's state is untouched: no draw calls are produced. An
    /// acquired frame yields the plan: the cache gains exactly the resolved
    /// textures not cached yet (in first-seen order), and one draw call per
    /// distinct resolved texture id carries the instance matrices of
    /// exactly the sprites resolving to it, in sprite order; the per-frame
    /// instance buffers are rebuilt from scratch to match.
    pub fn render(&mut self, sprites: &Vec<Sprite>, loader: &Loader, acquired: SurfaceStatus)
        -> (r: Result<FramePlan, SurfaceError>)
        requires
            old(self).wf(),
            loader.wf(),
            forall|i: int| 0 <= i < sprites@.len() ==> (#[trigger] sprites@[i]).wf(),
        ensures
            final(self).wf(),
            final(self).config_width == old(self).config_width,
            final(self).config_height == old(self).config_height,
            match acquired {
                SurfaceStatus::Failed(e) => r == Err::<FramePlan, SurfaceError>(e)
                    && *final(self) == *old(self),
                SurfaceStatus::Acquired => match r {
                    Ok(plan) => {
                        let ids = first_ids(*loader, sprites@);
                        &&& plan.uploads@ == missing_ids(
                            cache_ids(old(self).render_texture_data@), ids)
                        &&& cache_ids(final(self).render_texture_data@)
                            == cache_ids(old(self).render_texture_data@) + plan.uploads@
                        &&& plan.draws@.len() == ids.len()
                        &&& forall|i: int| 0 <= i < ids.len() ==> {
                            let d = #[trigger] plan.draws@[i];
                            &&& d.texture_id == ids[i]
                            &&& d.num_indices == 6
                            &&& views_of(d.instances@)
                                == instances_for(*loader, sprites@, ids[i])
                        }
                        &&& final(self).instance_buffers@.len() == ids.len()
                        &&& forall|i: int| 0 <= i < ids.len()
                            ==> #[trigger] final(self).instance_buffers@[i]
                                == (ids[i], plan.draws@[i].instances@.len() as usize)
                    },
                    Err(_) => false,
                },
            },
    {
        match acquired {
            SurfaceStatus::Failed(e) => {
                return Err(e);
            },
            SurfaceStatus::Acquired => {},
        }
        let ghost old_cache = self.render_texture_data@;
        let mut uploads: Vec<ResourceId> = Vec::new();
        let mut draws: Vec<DrawCall> = Vec::new();
        let mut k: usize = 0;
        proof {
            assert(sprites@.take(0) =~= Seq::<Sprite>::empty());
        }
        while k < sprites.len()
            invariant
                self.wf(),
                loader.wf(),
                forall|i: int| 0 <= i < sprites@.len() ==> (#[trigger] sprites@[i]).wf(),
                k <= sprites@.len(),
                self.config_width == old(self).config_width,
                self.config_height == old(self).config_height,
                self.instance_buffers@ == old(self).instance_buffers@,
                old_cache == old(self).render_texture_data@,
                uploads@ == missing_ids(cache_ids(old_cache),
                    first_ids(*loader, sprites@.take(k as int))),
                cache_ids(self.render_texture_data@) == cache_ids(old_cache) + uploads@,
                draws@.len() == first_ids(*loader, sprites@.take(k as int)).len(),
                forall|i: int| 0 <= i < draws@.len() ==> {
                    let d = #[trigger] draws@[i];
                    &&& d.texture_id == first_ids(*loader, sprites@.take(k as int))[i]
                    &&& d.num_indices == 6
                    &&& views_of(d.instances@) == instances_for(
                        *loader, sprites@.take(k as int),
                        first_ids(*loader, sprites@.take(k as int))[i])
                },
            decreases sprites@.len() - k,
        {
            let sprite = &sprites[k];
            let texture = loader.get_texture_by_id(sprite.texture_id);
            let id = texture.id;
            proof {
                assert(sprites@.take(k as int + 1).drop_last() =~= sprites@.take(k as int));
                assert(sprites@.take(k as int + 1).last() == sprites@[k as int]);
            }
            let ghost pre_ids = first_ids(*loader, sprites@.take(k as int));
            let ghost step_ids = first_ids(*loader, sprites@.take(k as int + 1));

            if !cache_contains(&self.render_texture_data, id) {
                let num_indices = texture.indices.len() as u32;
                let ghost prev_cache = self.render_texture_data@;
                proof {
                    // The id is not in the frame-start cache plus this
                    // frame's uploads, so it is new on both counts.
                    lemma_cache_cover(cache_ids(old_cache), pre_ids, id);
                    assert(!cache_ids(old_cache).contains(id));
                    assert(!pre_ids.contains(id));
                    assert forall|i: int| 0 <= i < prev_cache.len()
                        implies (#[trigger] prev_cache[i]).0 != id by {
                        if prev_cache[i].0 == id {
                            assert(cache_ids(prev_cache)[i] == id);
                        }
                    }
                }
                self.render_texture_data.push((id, TextureData { num_indices }));
                uploads.push(id);
                proof {
                    assert(cache_ids(self.render_texture_data@)
                        =~= cache_ids(prev_cache).push(id));
                    assert(cache_ids(self.render_texture_data@)
                        =~= cache_ids(old_cache) + uploads@);
                    assert(step_ids == pre_ids.push(id));
                    assert(step_ids.drop_last() =~= pre_ids);
                    assert(step_ids.last() == id);
                    assert(uploads@ == missing_ids(cache_ids(old_cache), step_ids));
                }
            } else {
                proof {
                    if !pre_ids.contains(id) {
                        assert(step_ids == pre_ids.push(id));
                        assert(step_ids.drop_last() =~= pre_ids);
                        assert(step_ids.last() == id);
                        // The id is cached but was not seen among the
                        // sprites so far, so it was cached before the
                        // frame began: no upload is owed for it.
                        lemma_cache_cover(cache_ids(old_cache), pre_ids, id);
                        assert(cache_ids(old_cache).contains(id));
                        assert(uploads@ == missing_ids(cache_ids(old_cache), step_ids));
                    }
                }
            }

            let raw = sprite.get_raw_instance(&texture.size);
            match find_draw(&draws, id) {
                Some(idx) => {
                    proof {
                        assert(pre_ids.contains(id)) by {
                            assert(pre_ids[idx as int] == id);
                        }
                        assert(step_ids == pre_ids);
                    }
                    let mut call = draws.remove(idx);
                    let ghost prev_draws = draws@;
                    call.instances.push(raw);
                    let ghost prev_ins = instances_for(*loader,
                        sprites@.take(k as int), id);
                    draws.insert(idx, call);
                    proof {
                        assert(views_of(call.instances@)
                            =~= prev_ins.push(raw@));
                        assert forall|i: int| 0 <= i < draws@.len() implies {
                            let d = #[trigger] draws@[i];
                            &&& d.texture_id == step_ids[i]
                            &&& d.num_indices == 6
                            &&& views_of(d.instances@) == instances_for(
                                *loader, sprites@.take(k as int + 1), step_ids[i])
                        } by {
                            // Other batches are untouched because the draw
                            // ids are pairwise distinct.
                            lemma_single_batch(*loader, sprites@.take(k as int),
                                step_ids[i]);
                            if i != idx {
                                assert(step_ids[i] != id);
                            }
                        }
                    }
                },
                None => {
                    proof {
                        assert(!pre_ids.contains(id)) by {
                            if pre_ids.contains(id) {
                                let w = choose|w: int| 0 <= w < pre_ids.len()
                                    && pre_ids[w] == id;
                                assert(draws@[w].texture_id == id);
                            }
                        }
                        assert(step_ids == pre_ids.push(id));
                    }
                    let mut instances: Vec<Mat4> = Vec::new();
                    instances.push(raw);
                    let call = DrawCall { texture_id: id, instances, num_indices: 6 };
                    draws.push(call);
                    proof {
                        assert forall|i: int| 0 <= i < draws@.len() implies {
                            let d = #[trigger] draws@[i];
                            &&& d.texture_id == step_ids[i]
                            &&& d.num_indices == 6
                            &&& views_of(d.instances@) == instances_for(
                                *loader, sprites@.take(k as int + 1), step_ids[i])
                        } by {
                            lemma_single_batch(*loader, sprites@.take(k as int),
                                step_ids[i]);
                            if i < draws@.len() - 1 {
                                assert(draws@[i] == draws@.drop_last()[i]);
                                assert(step_ids[i] != id);
                            } else {
                                assert(views_of(draws@[i].instances@)
                                    =~= Seq::<SMat>::empty().push(raw@));
                                assert(instances_for(*loader,
                                    sprites@.take(k as int), id)
                                    =~= Seq::<SMat>::empty()) by {
                                    lemma_instances_absent(*loader,
                                        sprites@.take(k as int), id);
                                }
                            }
                        }
                    }
                },
            }
            k = k + 1;
        }
        proof {
            assert(sprites@.take(sprites@.len() as int) =~= sprites@);
        }
        let mut ib: Vec<(ResourceId, usize)> = Vec::new();
        let mut i: usize = 0;
        while i < draws.len()
            invariant
                i <= draws@.len(),
                ib@.len() == i,
                forall|j: int| 0 <= j < i ==> #[trigger] ib@[j]
                    == (draws@[j].texture_id, draws@[j].instances@.len() as usize),
            decreases draws@.len() - i,
        {
            ib.push((draws[i].texture_id, draws[i].instances.len()));
            i = i + 1;
        }
        self.instance_buffers = ib;
        Ok(FramePlan { uploads, draws })
    }
}

/// If no sprite resolves to `id`, its batch is empty.
proof fn lemma_instances_absent(loader: Loader, sprites: Seq<Sprite>, id: ResourceId)
    requires
        !first_ids(loader, sprites).contains(id),
    ensures
        instances_for(loader, sprites, id).len() == 0,
    decreases sprites.len(),
{
    lemma_single_batch(loader, sprites, id);
    if sprites.len() > 0 {
        if first_ids(loader, sprites.drop_last()).contains(id) {
            let w = choose|w: int| 0 <= w < first_ids(loader, sprites.drop_last()).len()
                && first_ids(loader, sprites.drop_last())[w] == id;
            assert(first_ids(loader, sprites).contains(id)) by {
                if first_ids(loader, sprites)
                    == first_ids(loader, sprites.drop_last()) {
                    assert(first_ids(loader, sprites)[w] == id);
                } else {
                    assert(first_ids(loader, sprites)[w] == id);
                }
            }
        }
        lemma_instances_absent(loader, sprites.drop_last(), id);
        assert(resolved_id(loader, sprites.last()) != id) by {
            if resolved_id(loader, sprites.last()) == id {
                if first_ids(loader, sprites.drop_last()).contains(id) {
                } else {
                    assert(first_ids(loader, sprites).last() == id);
                }
            }
        }
    }
}

/// Whether the cache already holds an entry for `id`.
fn cache_contains(cache: &Vec<(ResourceId, TextureData)>, id: ResourceId) -> (r: bool)
    ensures
        r == cache_ids(cache@).contains(id),
{
    let mut i: usize = 0;
    while i < cache.len()
        invariant
            i <= cache@.len(),
            forall|j: int| 0 <= j < i ==> (#[trigger] cache@[j]).0 != id,
        decreases cache@.len() - i,
    {
        if cache[i].0 == id {
            proof {
                assert(cache_ids(cache@)[i as int] == id);
            }
            return true;
        }
        i = i + 1;
    }
    proof {
        if cache_ids(cache@).contains(id) {
            let w = choose|w: int| 0 <= w < cache_ids(cache@).len()
                && cache_ids(cache@)[w] == id;
            assert(cache@[w].0 == id);
        }
    }
    false
}

/// The index of the draw call for `id`, if one exists.
fn find_draw(draws: &Vec<DrawCall>, id: ResourceId) -> (r: Option<usize>)
    ensures
        match r {
            Some(idx) => idx < draws@.len() && draws@[idx as int].texture_id == id,
            None => forall|j: int| 0 <= j < draws@.len()
                ==> (#[trigger] draws@[j]).texture_id != id,
        },
{
    let mut i: usize = 0;
    while i < draws.len()
        invariant
            i <= draws@.len(),
            forall|j: int| 0 <= j < i ==> (#[trigger] draws@[j]).texture_id != id,
        decreases draws@.len() - i,
    {
        if draws[i].texture_id == id {
            return Some(i);
        }
        i = i + 1;
    }
    None
}

/// Membership after appending one id.
proof fn lemma_contains_push(s: Seq<ResourceId>, y: ResourceId, x: ResourceId)
    ensures
        s.push(y).contains(x) <==> (s.contains(x) || x == y),
{
    if s.push(y).contains(x) {
        let w = choose|w: int| 0 <= w < s.push(y).len() && s.push(y)[w] == x;
        if w < s.len() {
            assert(s[w] == x);
        }
    }
    if s.contains(x) {
        let w = choose|w: int| 0 <= w < s.len() && s[w] == x;
        assert(s.push(y)[w] == x);
    }
    assert(s.push(y)[s.len() as int] == y);
}

/// Membership through the last element.
proof fn lemma_contains_drop_last(s: Seq<ResourceId>, x: ResourceId)
    requires
        s.len() > 0,
    ensures
        s.contains(x) <==> (s.drop_last().contains(x) || s.last() == x),
{
    if s.contains(x) {
        let w = choose|w: int| 0 <= w < s.len() && s[w] == x;
        if w < s.len() - 1 {
            assert(s.drop_last()[w] == x);
        }
    }
    if s.drop_last().contains(x) {
        let w = choose|w: int| 0 <= w < s.drop_last().len() && s.drop_last()[w] == x;
        assert(s[w] == x);
    }
}

/// After this frame the cache holds exactly what it held before plus the
/// ids the frame used.
proof fn lemma_cache_cover(cache: Seq<ResourceId>, ids: Seq<ResourceId>, x: ResourceId)
    ensures
        (cache + missing_ids(cache, ids)).contains(x)
            <==> (cache.contains(x) || ids.contains(x)),
    decreases ids.len(),
{
    if ids.len() == 0 {
        assert(cache + missing_ids(cache, ids) =~= cache);
    } else {
        lemma_cache_cover(cache, ids.drop_last(), x);
        lemma_contains_drop_last(ids, x);
        let pre = missing_ids(cache, ids.drop_last());
        if cache.contains(ids.last()) {
            assert(missing_ids(cache, ids) == pre);
        } else {
            assert(missing_ids(cache, ids) == pre.push(ids.last()));
            assert(cache + pre.push(ids.last()) =~= (cache + pre).push(ids.last()));
            lemma_contains_push(cache + pre, ids.last(), x);
        }
    }
}

} // verus!
