//! The resource loader: stable integer ids for textures and fonts, with a
//! built-in opaque white texture as the fallback for any unknown id. Ids
//! are allocated densely from 1; id 0 names the built-in default.

use vstd::prelude::*;
use crate::texture::{Extent3d, Texture, decode_fits, decoded_dims, decoded_rgba};

verus! {

/// A stable resource identifier; 0 is reserved for the built-in default
/// texture.
pub type ResourceId = u32;

/// A loaded resource: a decoded texture, or a font's raw bytes.
pub enum Resource {
    Texture(Texture),
    Font(Vec<u8>),
}

/// A named resource on disk; the shell reads the file and hands the bytes
/// to the loader as a `NamedBytes`.
pub struct ResourceData<'a> {
    pub name: &'a str,
    pub path: &'a str,
}

/// A named, already-read asset file.
pub struct NamedBytes {
    pub name: String,
    pub bytes: Vec<u8>,
}

/// The id recorded for `name`, scanning the records so that the latest
/// record for a name wins.
pub open spec fn find_id(ids: Seq<(String, ResourceId)>, name: Seq<char>) -> Option<ResourceId>
    decreases ids.len(),
{
    if ids.len() == 0 {
        None
    } else if ids.last().0@ == name {
        Some(ids.last().1)
    } else {
        find_id(ids.drop_last(), name)
    }
}

/// Id allocation and caching for decoded textures and font blobs.
pub struct Loader {
    /// The resource stored under id `k + 1` sits at index `k`; a reserved
    /// id whose load failed holds nothing.
    pub resources: Vec<Option<Resource>>,
    /// Name-to-id records, latest record first in precedence.
    pub resource_ids: Vec<(String, ResourceId)>,
    /// The next id to hand out.
    pub next_resource_id: ResourceId,
    /// The opaque white fallback texture, id 0.
    pub default_texture: Texture,
}

impl Loader {
    /// Ids stay dense, stored textures are well formed under their own id,
    /// and the fallback texture is well formed under id 0.
    pub open spec fn wf(self) -> bool {
        &&& self.next_resource_id as int == self.resources@.len() + 1
        &&& forall|k: int| 0 <= k < self.resources@.len() ==>
            match #[trigger] self.resources@[k] {
                Some(r) => match r {
                    Resource::Texture(t) => t.wf() && t.id == k + 1,
                    Resource::Font(_) => true,
                },
                None => true,
            }
        &&& self.default_texture.wf()
        &&& self.default_texture.id == 0
    }

    /// The resource stored under `id`, if any.
    pub open spec fn resource_of(self, id: ResourceId) -> Option<Resource> {
        if 1 <= id && id as int <= self.resources@.len() {
            self.resources@[id as int - 1]
        } else {
            None
        }
    }

    /// The texture a lookup of `id` must yield: the stored texture, or the
    /// built-in default when `id` is unknown or stores no texture.
    pub open spec fn texture_of(self, id: ResourceId) -> Texture {
        match self.resource_of(id) {
            Some(r) => match r {
                Resource::Texture(t) => t,
                Resource::Font(_) => self.default_texture,
            },
            None => self.default_texture,
        }
    }

    /// A fresh loader: no resources, ids from 1, and the built-in opaque
    /// white `100 × 100` fallback texture under id 0.
    pub fn new() -> (r: Loader)
        ensures
            r.wf(),
            r.resources@.len() == 0,
            r.resource_ids@.len() == 0,
            r.next_resource_id == 1,
            r.default_texture.size == (Extent3d { width: 100, height: 100, depth_or_array_layers: 1 }),
            r.default_texture.name@ == "white"@,
            r.default_texture.pixels@.len() == 40000,
            forall|i: int| 0 <= i < 40000 ==> r.default_texture.pixels@[i] == 255u8,
    {
        let mut white: Vec<u8> = Vec::new();
        let mut i: usize = 0;
        while i < 40000
            invariant
                i <= 40000,
                white@.len() == i,
                forall|j: int| 0 <= j < i ==> white@[j] == 255u8,
            decreases 40000 - i,
        {
            white.push(255);
            i += 1;
        }
        let white_box = Texture::from_image("white", 100, 100, white, 0);
        Loader {
            resources: Vec::new(),
            resource_ids: Vec::new(),
            next_resource_id: 1,
            default_texture: white_box,
        }
    }

    /// Reserve the next id and record it under `name`. The id's slot holds
    /// nothing until a load fills it.
    pub fn get_next_valid_id(&mut self, name: &str) -> (id: ResourceId)
        requires
            old(self).wf(),
            old(self).next_resource_id < u32::MAX,
        ensures
            final(self).wf(),
            id == old(self).next_resource_id,
            final(self).next_resource_id == old(self).next_resource_id + 1,
            final(self).resources@ == old(self).resources@.push(None),
            final(self).resource_ids@.len() == old(self).resource_ids@.len() + 1,
            final(self).resource_ids@.last().0@ == name@,
            final(self).resource_ids@.last().1 == id,
            final(self).resource_ids@.drop_last() == old(self).resource_ids@,
            find_id(final(self).resource_ids@, name@) == Some(id),
            final(self).default_texture == old(self).default_texture,
    {
        let id = self.next_resource_id;
        self.resource_ids.push((name.to_owned(), id));
        self.resources.push(None);
        self.next_resource_id = self.next_resource_id + 1;
        id
    }

    /// The id recorded for `name`, or 0 (the default texture's id) when no
    /// record exists; the latest record for a name wins.
    pub fn get_resource_id(&self, name: &str) -> (id: ResourceId)
        ensures
            match find_id(self.resource_ids@, name@) {
                Some(found) => id == found,
                None => id == 0,
            },
    {
        let lookup: String = name.to_owned();
        let mut i: usize = self.resource_ids.len();
        proof {
            assert(self.resource_ids@.take(i as int) =~= self.resource_ids@);
        }
        while i > 0
            invariant
                i <= self.resource_ids@.len(),
                lookup@ == name@,
                find_id(self.resource_ids@, name@)
                    == find_id(self.resource_ids@.take(i as int), name@),
            decreases i,
        {
            i = i - 1;
            let entry = &self.resource_ids[i];
            if entry.0 == lookup {
                proof {
                    assert(self.resource_ids@.take(i as int + 1).last() == self.resource_ids@[i as int]);
                }
                return entry.1;
            }
            proof {
                assert(self.resource_ids@.take(i as int + 1).drop_last()
                    =~= self.resource_ids@.take(i as int));
            }
        }
        proof {
            assert(self.resource_ids@.take(0) =~= Seq::<(String, ResourceId)>::empty());
        }
        0
    }

    /// The texture stored under `id`; an unknown id, a reserved id whose
    /// load failed, or an id holding a font resolves to the built-in
    /// default texture. Lookups never fail.
    pub fn get_texture_by_id(&self, id: ResourceId) -> (t: &Texture)
        requires
            self.wf(),
        ensures
            *t == self.texture_of(id),
            t.wf(),
            self.resource_of(id) is None ==> *t == self.default_texture,
    {
        if 1 <= id && (id as usize) <= self.resources.len() {
            match &self.resources[(id as usize) - 1] {
                Some(r) => match r {
                    Resource::Texture(t) => t,
                    Resource::Font(_) => &self.default_texture,
                },
                None => &self.default_texture,
            }
        } else {
            &self.default_texture
        }
    }

    /// Load one named image: reserve its id, decode the bytes, and fill the
    /// slot — or leave the slot empty when the bytes do not decode or the
    /// image is too large for the transform arithmetic.
    pub fn load_image(&mut self, name: &str, bytes: &Vec<u8>) -> (id: ResourceId)
        requires
            old(self).wf(),
            old(self).next_resource_id < u32::MAX,
        ensures
            final(self).wf(),
            id == old(self).next_resource_id,
            final(self).next_resource_id == old(self).next_resource_id + 1,
            final(self).resources@.len() == old(self).resources@.len() + 1,
            final(self).resources@.drop_last() == old(self).resources@,
            decode_fits(bytes@) ==> match final(self).resources@.last() {
                Some(r) => match r {
                    Resource::Texture(t) => {
                        &&& t.id == id
                        &&& t.name@ == name@
                        &&& Some((t.size.width, t.size.height)) == decoded_dims(bytes@)
                        &&& t.pixels@ == decoded_rgba(bytes@)
                        &&& t.wf()
                    },
                    Resource::Font(_) => false,
                },
                None => false,
            },
            !decode_fits(bytes@) ==> final(self).resources@.last() is None,
            final(self).resource_ids@.len() == old(self).resource_ids@.len() + 1,
            find_id(final(self).resource_ids@, name@) == Some(id),
            final(self).default_texture == old(self).default_texture,
    {
        let id = self.get_next_valid_id(name);
        match Texture::try_new(id, name, bytes) {
            Some(texture) => {
                let slot = self.resources.len() - 1;
                self.resources.set(slot, Some(Resource::Texture(texture)));
                id
            },
            None => id,
        }
    }

    /// Load a batch of named images in order; each image takes the next id
    /// whether or not it decodes, as `load_image` does.
    pub fn load_images(&mut self, mut resource_data: Vec<NamedBytes>) -> (first_id: ResourceId)
        requires
            old(self).wf(),
            old(self).next_resource_id as int + resource_data@.len() <= u32::MAX,
        ensures
            final(self).wf(),
            first_id == old(self).next_resource_id,
            final(self).next_resource_id as int
                == old(self).next_resource_id as int + resource_data@.len(),
            final(self).resources@.len() == old(self).resources@.len() + resource_data@.len(),
            final(self).resources@.take(old(self).resources@.len() as int)
                == old(self).resources@,
            forall|k: int| 0 <= k < resource_data@.len() ==> {
                let slot = final(self).resources@[old(self).resources@.len() + k];
                decode_fits((#[trigger] resource_data@[k]).bytes@) ==> match slot {
                    Some(r) => match r {
                        Resource::Texture(t) => {
                            &&& t.id as int == old(self).next_resource_id + k
                            &&& t.name@ == resource_data@[k].name@
                            &&& Some((t.size.width, t.size.height))
                                == decoded_dims(resource_data@[k].bytes@)
                            &&& t.pixels@ == decoded_rgba(resource_data@[k].bytes@)
                            &&& t.wf()
                        },
                        Resource::Font(_) => false,
                    },
                    None => false,
                }
            },
            forall|k: int| 0 <= k < resource_data@.len()
                && !decode_fits((#[trigger] resource_data@[k]).bytes@)
                ==> final(self).resources@[old(self).resources@.len() + k] is None,
            final(self).default_texture == old(self).default_texture,
    {
        let ghost orig = resource_data@;
        let ghost base = self.resources@.len() as int;
        let ghost snap = *self;
        let first_id = self.next_resource_id;
        let mut k: usize = 0;
        while resource_data.len() > 0
            invariant
                snap.wf(),
                self.wf(),
                k as int + resource_data@.len() == orig.len(),
                resource_data@ == orig.skip(k as int),
                base == snap.resources@.len(),
                first_id == snap.next_resource_id,
                snap.next_resource_id as int + orig.len() <= u32::MAX,
                self.next_resource_id as int == snap.next_resource_id + k,
                self.resources@.len() == base + k,
                self.resources@.take(base) == snap.resources@,
                forall|j: int| 0 <= j < k ==> {
                    let slot = self.resources@[base + j];
                    decode_fits((#[trigger] orig[j]).bytes@) ==> match slot {
                        Some(r) => match r {
                            Resource::Texture(t) => {
                                &&& t.id as int == snap.next_resource_id + j
                                &&& t.name@ == orig[j].name@
                                &&& Some((t.size.width, t.size.height))
                                    == decoded_dims(orig[j].bytes@)
                                &&& t.pixels@ == decoded_rgba(orig[j].bytes@)
                                &&& t.wf()
                            },
                            Resource::Font(_) => false,
                        },
                        None => false,
                    }
                },
                forall|j: int| 0 <= j < k && !decode_fits((#[trigger] orig[j]).bytes@)
                    ==> self.resources@[base + j] is None,
                self.default_texture == snap.default_texture,
            decreases resource_data@.len(),
        {
            let item = resource_data.remove(0);
            let ghost prev = self.resources@;
            self.load_image(item.name.as_str(), &item.bytes);
            proof {
                assert(self.resources@.take(base) =~= prev.take(base));
                assert(self.resources@.last() == self.resources@[base + k]);
                assert(forall|j: int| 0 <= j < k ==>
                    #[trigger] self.resources@[base + j] == prev[base + j]);
            }
            k = k + 1;
        }
        proof {
            assert(self.resources@.take(base) =~= snap.resources@);
        }
        first_id
    }

    /// Load a batch of named fonts in order: each reserves the next id and
    /// stores its raw bytes.
    pub fn load_fonts(&mut self, mut resource_data: Vec<NamedBytes>)
        requires
            old(self).wf(),
            old(self).next_resource_id as int + resource_data@.len() <= u32::MAX,
        ensures
            final(self).wf(),
            final(self).next_resource_id as int
                == old(self).next_resource_id as int + resource_data@.len(),
            final(self).resources@.len() == old(self).resources@.len() + resource_data@.len(),
            final(self).resources@.take(old(self).resources@.len() as int)
                == old(self).resources@,
            forall|k: int| 0 <= k < resource_data@.len() ==>
                match #[trigger] final(self).resources@[old(self).resources@.len() + k] {
                    Some(r) => match r {
                        Resource::Font(b) => b@ == resource_data@[k].bytes@,
                        Resource::Texture(_) => false,
                    },
                    None => false,
                },
            final(self).default_texture == old(self).default_texture,
    {
        let ghost orig = resource_data@;
        let ghost base = self.resources@.len() as int;
        let ghost snap = *self;
        let mut k: usize = 0;
        while resource_data.len() > 0
            invariant
                snap.wf(),
                self.wf(),
                k as int + resource_data@.len() == orig.len(),
                resource_data@ == orig.skip(k as int),
                base == snap.resources@.len(),
                snap.next_resource_id as int + orig.len() <= u32::MAX,
                self.next_resource_id as int == snap.next_resource_id + k,
                self.resources@.len() == base + k,
                self.resources@.take(base) == snap.resources@,
                forall|j: int| 0 <= j < k ==>
                    match #[trigger] self.resources@[base + j] {
                        Some(r) => match r {
                            Resource::Font(b) => b@ == orig[j].bytes@,
                            Resource::Texture(_) => false,
                        },
                        None => false,
                    },
                self.default_texture == snap.default_texture,
            decreases resource_data@.len(),
        {
            let item = resource_data.remove(0);
            let ghost prev = self.resources@;
            let id = self.get_next_valid_id(item.name.as_str());
            let slot = self.resources.len() - 1;
            self.resources.set(slot, Some(Resource::Font(item.bytes)));
            proof {
                assert(self.resources@.take(base) =~= prev.take(base));
                assert(forall|j: int| 0 <= j < k ==>
                    #[trigger] self.resources@[base + j] == prev[base + j]);
            }
            k = k + 1;
        }
        proof {
            assert(self.resources@.take(base) =~= snap.resources@);
        }
    }
}

} // verus!
