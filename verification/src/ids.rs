//! Identifier types shared across the library.

use vstd::prelude::*;

verus! {

/// Identifier of an actor in the scene.
pub type ActorId = usize;

/// Small index identifying a skin, an image or an animation slot.
pub type MediumId = usize;

/// Handle of a loaded texture, owned by the rendering collaborator.
pub type TextureId = u32;

/// A (skin name, image name) pair naming one atlas resource.
pub type ResourcePath = (String, String);

/// The texture handle that denotes "no texture loaded".
pub const NO_TEXTURE: TextureId = 0;

/// A fully resolved reference to one image of one skin.
#[derive(Clone, Copy, Debug, PartialEq, Eq, Structural)]
pub struct ResourceId {
    pub skin_id: MediumId,
    pub image_id: MediumId,
}

impl ResourceId {
    /// Pack a skin index and an image index.
    pub fn new(skin_id: MediumId, image_id: MediumId) -> (r: ResourceId)
        ensures
            r.skin_id == skin_id,
            r.image_id == image_id,
    {
        ResourceId { skin_id, image_id }
    }
}

} // verus!
