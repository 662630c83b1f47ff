use vstd::prelude::*;

verus! {

/// Settings used to initialize a device with presentation support.
#[derive(Clone, Copy, Debug, PartialEq, Eq, Structural)]
pub struct GraphicsApiInitSettings {
    /// Requested multisampling sample count (1 or a power of two up to 64).
    pub msaa_samples: u8,
    /// Width of the presentation surface.
    pub width: u32,
    /// Height of the presentation surface.
    pub height: u32,
    /// Skip the device capability check.
    pub bypass_capability_check: bool,
}

impl core::default::Default for GraphicsApiInitSettings {
    fn default() -> (r: Self)
        ensures
            r.msaa_samples == 0,
            r.width == 0,
            r.height == 0,
            !r.bypass_capability_check,
    {
        GraphicsApiInitSettings { msaa_samples: 0, width: 0, height: 0, bypass_capability_check: false }
    }
}

impl GraphicsApiInitSettings {
    /// Returns a copy of the settings with the given sample count.
    pub fn msaa_samples(&self, msaa_samples: u8) -> (r: Self)
        ensures
            r == (GraphicsApiInitSettings { msaa_samples, ..*self }),
    {
        GraphicsApiInitSettings { msaa_samples, ..*self }
    }

    /// Returns a copy of the settings with the given width.
    pub fn width(&self, width: u32) -> (r: Self)
        ensures
            r == (GraphicsApiInitSettings { width, ..*self }),
    {
        GraphicsApiInitSettings { width, ..*self }
    }

    /// Returns a copy of the settings with the given height.
    pub fn height(&self, height: u32) -> (r: Self)
        ensures
            r == (GraphicsApiInitSettings { height, ..*self }),
    {
        GraphicsApiInitSettings { height, ..*self }
    }

    /// Returns a copy of the settings with the given capability check choice.
    pub fn bypass_capability_check(&self, bypass_capability_check: bool) -> (r: Self)
        ensures
            r == (GraphicsApiInitSettings { bypass_capability_check, ..*self }),
    {
        GraphicsApiInitSettings { bypass_capability_check, ..*self }
    }
}

/// Memory statistics of the device.
#[derive(Clone, Copy, Debug, PartialEq, Eq, Structural)]
pub struct DebugData {
    /// Bytes in use in the first memory heap.
    pub used_memory: u64,
    /// Bytes budgeted for the first memory heap.
    pub aviable_memory: u64,
}

impl DebugData {
    /// Builds the statistics from the per-heap usage and budget arrays that
    /// the driver reports: the first heap's entries are taken.
    pub fn from_heaps(heap_usage: &[u64], heap_budget: &[u64]) -> (r: Self)
        requires
            heap_usage@.len() > 0,
            heap_budget@.len() > 0,
        ensures
            r.used_memory == heap_usage@[0],
            r.aviable_memory == heap_budget@[0],
    {
        DebugData { used_memory: heap_usage[0], aviable_memory: heap_budget[0] }
    }
}

} // verus!
