//! Registry of loaded textures and skins.
//!
//! Decoding image files and creating GPU textures belong to the host
//! layer; this module owns the bookkeeping: which skins are loaded,
//! which (skin, image) names map to which resource, and which texture
//! handle backs each resource.  The host hands `load_skin` the texture
//! handle for each image name it managed to load, or nothing for a
//! missing file.

use vstd::prelude::*;
use vstd::string::StringExecFns;

use crate::ids::{MediumId, ResourceId, ResourcePath, TextureId, NO_TEXTURE};
use crate::names::str_eq;

verus! {

/// The directory under the resource root that holds sprite skins.
pub const SPRITES_DIR: &'static str = "sprites";

/// The path of the sprites directory under a resource root.
pub fn sprites_path(base: &str) -> (r: String)
    ensures
        r@ == base@ + "/"@ + SPRITES_DIR@,
{
    let mut r = String::from_str(base);
    r.append("/");
    r.append(SPRITES_DIR);
    r
}

/// The texture handles of the two ground tiles.
pub struct Textures {
    pub water: TextureId,
    pub grass: TextureId,
}

impl Textures {
    /// Pack the two ground texture handles.
    pub fn new(water: TextureId, grass: TextureId) -> (r: Textures)
        ensures
            r.water == water,
            r.grass == grass,
    {
        Textures { water, grass }
    }
}

impl Default for Textures {
    /// A registry with no textures loaded.
    fn default() -> (r: Textures)
        ensures
            r.water == NO_TEXTURE,
            r.grass == NO_TEXTURE,
    {
        Textures { water: NO_TEXTURE, grass: NO_TEXTURE }
    }
}

/// The skin registry: where skins live on disk, which resources exist,
/// and which texture handle backs each of them.
pub struct Sprites {
    pub sprites_dir: String,
    pub id_map: Vec<(ResourcePath, ResourceId)>,
    pub skins: Vec<Vec<TextureId>>,
    pub loaded_skins: Vec<(String, MediumId)>,
}

/// Whether a skin name is registered as loaded.
pub open spec fn has_loaded_skin(s: Seq<(String, MediumId)>, name: Seq<char>) -> bool {
    exists|i: int| 0 <= i < s.len() && (#[trigger] s[i].0)@ == name
}

/// The index of a loaded skin name.
pub open spec fn loaded_skin_index(s: Seq<(String, MediumId)>, name: Seq<char>) -> int {
    choose|i: int| 0 <= i < s.len() && (#[trigger] s[i].0)@ == name
}

/// The resource most recently registered under a (skin name, image
/// name) pair, or nothing; a later registration supersedes an earlier
/// one with the same pair.
pub open spec fn spec_resource_lookup(
    s: Seq<(ResourcePath, ResourceId)>,
    skin: Seq<char>,
    image: Seq<char>,
) -> Option<ResourceId>
    decreases s.len(),
{
    if s.len() == 0 {
        Option::None
    } else if s.last().0.0@ == skin && s.last().0.1@ == image {
        Option::Some(s.last().1)
    } else {
        spec_resource_lookup(s.drop_last(), skin, image)
    }
}

/// A registration after which no equal pair follows is what the lookup
/// returns.
proof fn lemma_lookup_hits(
    s: Seq<(ResourcePath, ResourceId)>,
    skin: Seq<char>,
    image: Seq<char>,
    pos: int,
)
    requires
        0 <= pos < s.len(),
        s[pos].0.0@ == skin && s[pos].0.1@ == image,
        forall|k: int|
            pos < k < s.len() ==> !((#[trigger] s[k].0).0@ == skin && s[k].0.1@ == image),
    ensures
        spec_resource_lookup(s, skin, image) == Option::Some(s[pos].1),
    decreases s.len(),
{
    if pos < s.len() - 1 {
        assert(s.drop_last()[pos] == s[pos]);
        assert(forall|k: int|
            pos < k < s.drop_last().len() ==> #[trigger] s.drop_last()[k] == s[k]);
        lemma_lookup_hits(s.drop_last(), skin, image, pos);
    }
}

/// The positions of the image names whose texture the host loaded, in
/// order, among the first `n` entries.
pub open spec fn spec_loaded_indices(textures: Seq<Option<TextureId>>, n: int) -> Seq<int>
    decreases n,
{
    if n <= 0 {
        Seq::empty()
    } else {
        let prev = spec_loaded_indices(textures, n - 1);
        if n - 1 < textures.len() && textures[n - 1] is Some {
            prev.push(n - 1)
        } else {
            prev
        }
    }
}

impl Sprites {
    /// Whether the registry is well formed: loaded skin names are
    /// unique and name skins that exist.
    pub open spec fn wf(&self) -> bool {
        &&& forall|i: int, j: int|
            0 <= i < j < self.loaded_skins@.len() ==> (#[trigger] self.loaded_skins@[i].0)@ != (
            #[trigger] self.loaded_skins@[j].0)@
        &&& forall|i: int|
            0 <= i < self.loaded_skins@.len() ==> (#[trigger] self.loaded_skins@[i].1 as int)
                < self.skins@.len()
    }

    /// An empty registry rooted at a sprites directory.
    pub fn new(sprites_dir: String) -> (r: Sprites)
        ensures
            r.sprites_dir == sprites_dir,
            r.id_map@.len() == 0,
            r.skins@.len() == 0,
            r.loaded_skins@.len() == 0,
            r.wf(),
    {
        Sprites { sprites_dir, id_map: Vec::new(), skins: Vec::new(), loaded_skins: Vec::new() }
    }

    /// The directory the skins live under.
    pub fn get_sprites_dir(&self) -> (r: &str)
        ensures
            r@ == self.sprites_dir@,
    {
        self.sprites_dir.as_str()
    }

    /// The resource most recently registered under a (skin name, image
    /// name) pair, so re-loading a skin supersedes its earlier
    /// registrations.
    pub fn get_resource_id(&self, key: &(String, String)) -> (r: Option<ResourceId>)
        ensures
            r == spec_resource_lookup(self.id_map@, key.0@, key.1@),
    {
        proof {
            assert(self.id_map@.subrange(0, self.id_map@.len() as int) =~= self.id_map@);
        }
        Sprites::resource_lookup_upto(&self.id_map, key, self.id_map.len())
    }

    /// The lookup over the first `n` registrations, scanned newest
    /// first.
    fn resource_lookup_upto(id_map: &Vec<(ResourcePath, ResourceId)>, key: &(String, String), n: usize) -> (r: Option<ResourceId>)
        requires
            n <= id_map@.len(),
        ensures
            r == spec_resource_lookup(id_map@.subrange(0, n as int), key.0@, key.1@),
        decreases n,
    {
        if n == 0 {
            Option::None
        } else {
            proof {
                assert(id_map@.subrange(0, n as int).last() == id_map@[n - 1]);
                assert(id_map@.subrange(0, n as int).drop_last() =~= id_map@.subrange(
                    0,
                    n as int - 1,
                ));
            }
            if str_eq(id_map[n - 1].0.0.as_str(), key.0.as_str()) && str_eq(
                id_map[n - 1].0.1.as_str(),
                key.1.as_str(),
            ) {
                Option::Some(id_map[n - 1].1)
            } else {
                Sprites::resource_lookup_upto(id_map, key, n - 1)
            }
        }
    }

    /// The texture handle backing a resource, if both indices exist.
    pub fn get_texture_id(&self, resource_id: &ResourceId) -> (r: Option<TextureId>)
        ensures
            (r is Some) == ((resource_id.skin_id as int) < self.skins@.len() && (
            resource_id.image_id as int) < self.skins@[resource_id.skin_id as int]@.len()),
            r matches Some(t) ==> t == self.skins@[resource_id.skin_id as int]@[resource_id.image_id as int],
    {
        if resource_id.skin_id < self.skins.len() {
            let skin = &self.skins[resource_id.skin_id];
            if resource_id.image_id < skin.len() {
                Option::Some(skin[resource_id.image_id])
            } else {
                Option::None
            }
        } else {
            Option::None
        }
    }

    /// Register a skin: each image name whose texture the host managed
    /// to load gains a resource entry, and the textures become a new
    /// skin.  Returns the new skin's index.
    pub fn load_skin(&mut self, skin_name: &str, image_names: &Vec<String>, textures: &Vec<
        Option<TextureId>,
    >) -> (r: MediumId)
        requires
            old(self).wf(),
            image_names@.len() == textures@.len(),
        ensures
            final(self).wf(),
            r as int == old(self).skins@.len(),
            final(self).sprites_dir == old(self).sprites_dir,
            final(self).skins@.len() == old(self).skins@.len() + 1,
            forall|s: int|
                0 <= s < old(self).skins@.len() ==> #[trigger] final(self).skins@[s] == old(
                    self,
                ).skins@[s],
            ({
                let idx = spec_loaded_indices(textures@, textures@.len() as int);
                let new_skin = final(self).skins@[old(self).skins@.len() as int]@;
                &&& new_skin.len() == idx.len()
                &&& forall|j: int|
                    0 <= j < idx.len() ==> textures@[idx[j]] == Option::Some(
                        #[trigger] new_skin[j],
                    )
                &&& final(self).id_map@.len() == old(self).id_map@.len() + idx.len()
                &&& forall|k: int|
                    0 <= k < old(self).id_map@.len() ==> #[trigger] final(self).id_map@[k]
                        == old(self).id_map@[k]
                &&& forall|j: int|
                    0 <= j < idx.len() ==> ({
                        let entry = #[trigger] final(self).id_map@[old(self).id_map@.len() + j];
                        &&& entry.0.0@ == skin_name@
                        &&& entry.0.1@ == image_names@[idx[j]]@
                        &&& entry.1.skin_id == r
                        &&& entry.1.image_id as int == idx[j]
                    })
                &&& forall|j: int|
                    0 <= j < idx.len() && (forall|j2: int|
                        j < j2 < idx.len() ==> image_names@[#[trigger] idx[j2]]@
                            != image_names@[idx[j]]@) ==> (#[trigger] spec_resource_lookup(
                        final(self).id_map@,
                        skin_name@,
                        image_names@[idx[j]]@,
                    ) matches Option::Some(rid) && rid.skin_id == r && rid.image_id as int
                        == idx[j])
            }),
            forall|k: int|
                0 <= k < old(self).loaded_skins@.len() && (#[trigger] old(
                    self,
                ).loaded_skins@[k].0)@ != skin_name@ ==> final(self).loaded_skins@[k] == old(
                    self,
                ).loaded_skins@[k],
            !has_loaded_skin(old(self).loaded_skins@, skin_name@) ==> final(self).loaded_skins@.len() == old(self).loaded_skins@.len() + 1,
            has_loaded_skin(old(self).loaded_skins@, skin_name@) ==> final(self).loaded_skins@.len() == old(self).loaded_skins@.len(),
            has_loaded_skin(final(self).loaded_skins@, skin_name@),
            final(self).loaded_skins@[loaded_skin_index(
                final(self).loaded_skins@,
                skin_name@,
            )].1 == r,
    {
        let skin_id = self.skins.len();
        let mut skin: Vec<TextureId> = Vec::new();
        let mut image_id: usize = 0;
        while image_id < image_names.len()
            invariant
                image_names@.len() == textures@.len(),
                0 <= image_id <= image_names@.len(),
                self.skins@ == old(self).skins@,
                self.loaded_skins@ == old(self).loaded_skins@,
                self.sprites_dir == old(self).sprites_dir,
                skin_id == self.skins@.len(),
                ({
                    let idx = spec_loaded_indices(textures@, image_id as int);
                    &&& skin@.len() == idx.len()
                    &&& forall|j: int|
                        0 <= j < idx.len() ==> textures@[idx[j]] == Option::Some(
                            #[trigger] skin@[j],
                        )
                    &&& self.id_map@.len() == old(self).id_map@.len() + idx.len()
                    &&& forall|k: int|
                        0 <= k < old(self).id_map@.len() ==> #[trigger] self.id_map@[k] == old(
                            self,
                        ).id_map@[k]
                    &&& forall|j: int|
                        0 <= j < idx.len() ==> ({
                            let entry = #[trigger] self.id_map@[old(self).id_map@.len() + j];
                            &&& entry.0.0@ == skin_name@
                            &&& entry.0.1@ == image_names@[idx[j]]@
                            &&& entry.1.skin_id == skin_id
                            &&& entry.1.image_id as int == idx[j]
                        })
                }),
            decreases image_names@.len() - image_id,
        {
            match textures[image_id] {
                Option::Some(texture_id) => {
                    let resource_id = ResourceId::new(skin_id, image_id);
                    let skin_key = String::from_str(skin_name);
                    let key = (skin_key, image_names[image_id].clone());
                    skin.push(texture_id);
                    self.id_map.push((key, resource_id));
                },
                Option::None => {},
            }
            image_id = image_id + 1;
        }
        self.skins.push(skin);
        let registered_name = String::from_str(skin_name);
        match self.find_loaded_skin(skin_name) {
            Option::Some(i) => {
                self.loaded_skins.set(i, (registered_name, skin_id));
                proof {
                    assert(self.loaded_skins@[i as int].0@ == skin_name@);
                    let j = loaded_skin_index(self.loaded_skins@, skin_name@);
                    assert(0 <= j < self.loaded_skins@.len() && self.loaded_skins@[j].0@
                        == skin_name@);
                    assert(j == i as int);
                }
            },
            Option::None => {
                self.loaded_skins.push((registered_name, skin_id));
                proof {
                    let n = self.loaded_skins@.len() - 1;
                    assert(self.loaded_skins@[n].0@ == skin_name@);
                    let j = loaded_skin_index(self.loaded_skins@, skin_name@);
                    assert(0 <= j < self.loaded_skins@.len() && self.loaded_skins@[j].0@
                        == skin_name@);
                    assert(j == n);
                }
            },
        }
        proof {
            let idx = spec_loaded_indices(textures@, textures@.len() as int);
            let oldn = old(self).id_map@.len() as int;
            assert forall|j: int|
                0 <= j < idx.len() && (forall|j2: int|
                    j < j2 < idx.len() ==> image_names@[#[trigger] idx[j2]]@
                        != image_names@[idx[j]]@) implies (#[trigger] spec_resource_lookup(
                self.id_map@,
                skin_name@,
                image_names@[idx[j]]@,
            ) matches Option::Some(rid) && rid.skin_id == skin_id && rid.image_id as int
                == idx[j]) by {
                assert(self.id_map@[oldn + j].0.0@ == skin_name@ && self.id_map@[oldn + j].0.1@
                    == image_names@[idx[j]]@);
                assert forall|k: int|
                    oldn + j < k < self.id_map@.len() implies !((#[trigger] self.id_map@[k].0).0@
                    == skin_name@ && self.id_map@[k].0.1@ == image_names@[idx[j]]@) by {
                    let j2 = k - oldn;
                    assert(self.id_map@[oldn + j2].0.1@ == image_names@[idx[j2]]@);
                    assert(image_names@[idx[j2]]@ != image_names@[idx[j]]@);
                }
                lemma_lookup_hits(self.id_map@, skin_name@, image_names@[idx[j]]@, oldn + j);
            }
        }
        skin_id
    }

    /// The index of a loaded skin name, if registered.
    fn find_loaded_skin(&self, skin_name: &str) -> (r: Option<usize>)
        requires
            self.wf(),
        ensures
            (r is Some) == has_loaded_skin(self.loaded_skins@, skin_name@),
            r matches Some(i) ==> (i as int) == loaded_skin_index(
                self.loaded_skins@,
                skin_name@,
            ) && (i as int) < self.loaded_skins@.len() && self.loaded_skins@[i as int].0@
                == skin_name@,
    {
        let mut i: usize = 0;
        while i < self.loaded_skins.len()
            invariant
                self.wf(),
                0 <= i <= self.loaded_skins@.len(),
                forall|j: int| 0 <= j < i ==> (#[trigger] self.loaded_skins@[j].0)@ != skin_name@,
            decreases self.loaded_skins@.len() - i,
        {
            if str_eq(self.loaded_skins[i].0.as_str(), skin_name) {
                proof {
                    let j = loaded_skin_index(self.loaded_skins@, skin_name@);
                    assert(0 <= j < self.loaded_skins@.len() && self.loaded_skins@[j].0@
                        == skin_name@);
                    assert(j == i as int);
                }
                return Option::Some(i);
            }
            i = i + 1;
        }
        Option::None
    }

    /// Load a skin unless a skin of that name is already registered, in
    /// which case the registered skin's index is returned.
    pub fn load_skin_if_needed(&mut self, skin_name: &str, image_names: &Vec<String>, textures: &Vec<
        Option<TextureId>,
    >) -> (r: MediumId)
        requires
            old(self).wf(),
            image_names@.len() == textures@.len(),
        ensures
            final(self).wf(),
            final(self).sprites_dir == old(self).sprites_dir,
            has_loaded_skin(old(self).loaded_skins@, skin_name@) ==> *final(self) == *old(self)
                && r == old(self).loaded_skins@[loaded_skin_index(
                old(self).loaded_skins@,
                skin_name@,
            )].1,
            !has_loaded_skin(old(self).loaded_skins@, skin_name@) ==> ({
                let idx = spec_loaded_indices(textures@, textures@.len() as int);
                let new_skin = final(self).skins@[old(self).skins@.len() as int]@;
                &&& r as int == old(self).skins@.len()
                &&& final(self).skins@.len() == old(self).skins@.len() + 1
                &&& (forall|s: int|
                    0 <= s < old(self).skins@.len() ==> #[trigger] final(self).skins@[s] == old(
                        self,
                    ).skins@[s])
                &&& new_skin.len() == idx.len()
                &&& (forall|j: int|
                    0 <= j < idx.len() ==> textures@[idx[j]] == Option::Some(
                        #[trigger] new_skin[j],
                    ))
                &&& final(self).id_map@.len() == old(self).id_map@.len() + idx.len()
                &&& (forall|k: int|
                    0 <= k < old(self).id_map@.len() ==> #[trigger] final(self).id_map@[k]
                        == old(self).id_map@[k])
                &&& (forall|j: int|
                    0 <= j < idx.len() ==> ({
                        let entry = #[trigger] final(self).id_map@[old(self).id_map@.len() + j];
                        &&& entry.0.0@ == skin_name@
                        &&& entry.0.1@ == image_names@[idx[j]]@
                        &&& entry.1.skin_id == r
                        &&& entry.1.image_id as int == idx[j]
                    }))
                &&& (forall|j: int|
                    0 <= j < idx.len() && (forall|j2: int|
                        j < j2 < idx.len() ==> image_names@[#[trigger] idx[j2]]@
                            != image_names@[idx[j]]@) ==> (#[trigger] spec_resource_lookup(
                        final(self).id_map@,
                        skin_name@,
                        image_names@[idx[j]]@,
                    ) matches Option::Some(rid) && rid.skin_id == r && rid.image_id as int
                        == idx[j]))
                &&& final(self).loaded_skins@.len() == old(self).loaded_skins@.len() + 1
                &&& has_loaded_skin(final(self).loaded_skins@, skin_name@)
                &&& final(self).loaded_skins@[loaded_skin_index(
                    final(self).loaded_skins@,
                    skin_name@,
                )].1 == r
            }),
    {
        match self.find_loaded_skin(skin_name) {
            Option::Some(i) => self.loaded_skins[i].1,
            Option::None => self.load_skin(skin_name, image_names, textures),
        }
    }
}

} // verus!
