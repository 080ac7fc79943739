//! Materials: which shaders and texture a submesh is drawn with.
use crate::ids::{Asset, AssetId};
use vstd::prelude::*;

verus! {

/// A material pairs the two shader stages of its pipeline with the texture
/// its descriptor set samples.
#[derive(Clone, Copy, PartialEq, Eq, Structural, Debug)]
pub struct Material {
    pub id: AssetId,
    pub vertex_shader_id: AssetId,
    pub fragment_shader_id: AssetId,
    pub texture_id: AssetId,
}

impl Asset for Material {
    fn id(&self) -> (r: AssetId)
        ensures
            r == self.id,
    {
        self.id
    }
}

} // verus!
