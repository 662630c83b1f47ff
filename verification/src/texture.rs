use vstd::prelude::*;

verus! {

/// A texture in GPU memory, as the library's decisions see it: the image
/// view that samples it and the number of its mip levels.
#[derive(Clone, Copy, Debug, PartialEq, Eq, Structural)]
pub struct Texture {
    /// Raw handle of the image view.
    pub image_view: u64,
    /// Number of mip levels of the image.
    pub mip_levels: u32,
}

impl Texture {
    /// A texture with the given image view and mip level count.
    pub fn new(image_view: u64, mip_levels: u32) -> (r: Texture)
        ensures
            r == (Texture { image_view, mip_levels }),
    {
        Texture { image_view, mip_levels }
    }
}

} // verus!
