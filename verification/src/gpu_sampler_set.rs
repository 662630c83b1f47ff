use std::sync::Arc;
use vstd::prelude::*;
use crate::texture::Texture;

verus! {

/// Used for textures bindings in shaders: each texture with the binding it is
/// sampled at.
pub struct GpuSamplerSet {
    pub(crate) textures: Vec<(u32, Texture)>,
}

impl GpuSamplerSet {
    /// The bindings and textures of the set.
    pub closed spec fn spec_textures(&self) -> Seq<(u32, Texture)> {
        self.textures@
    }

    /// Creates new GpuSamplerSet from textures and its bindings.
    pub fn from_textures(textures: &[(u32, Texture)]) -> (r: Arc<GpuSamplerSet>)
        ensures
            r.spec_textures() == textures@,
    {
        let mut v: Vec<(u32, Texture)> = Vec::new();
        let mut i: usize = 0;
        while i < textures.len()
            invariant
                i <= textures@.len(),
                v@ == textures@.subrange(0, i as int),
            decreases textures@.len() - i,
        {
            v.push(textures[i]);
            i = i + 1;
        }
        Arc::new(GpuSamplerSet { textures: v })
    }

    /// The bindings and textures of the set.
    pub fn textures(&self) -> (r: &Vec<(u32, Texture)>)
        ensures
            r@ == self.spec_textures(),
    {
        &self.textures
    }
}

} // verus!
