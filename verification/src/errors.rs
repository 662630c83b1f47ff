use vstd::prelude::*;

verus! {

/// Unified error enum.
#[derive(Clone, Copy, Debug, PartialEq, Eq, Structural)]
pub enum GraphicsError {
    /// Happens on unexpected library error
    ConnotInitLibrary,
    /// Happens on software missing support
    NotSupportedSystem,
    /// Happens on hardware missing support
    NotSupportedDevice,
    /// Happens on hardware missing support or window server missing capability
    NotSupportedPresent,
    /// Happens on image present error
    PresentError,
    /// Happens on unified transfer/compute error
    TransferError,
    /// Happens on rendering error
    RenderingError,
    /// Happens on GPU sync error
    SyncError,
    /// Happens on resource error, for example on drop
    ResourceError,
    /// Happens on shader compilation/capability error
    ShaderError,
    /// Happens on GPU memory error
    MemoryError,
    /// Happens on unified shader data error
    DataError,
    /// Happens on image error
    ImageError,
    /// Happens on debug error
    DebugError,
}

/// Result with a `GraphicsError` on `Err`.
pub type GraphicsResult<T> = Result<T, GraphicsError>;

impl GraphicsError {
    /// The text that displaying an error shows: the variant's name.
    pub open spec fn spec_name(self) -> Seq<char> {
        match self {
            GraphicsError::ConnotInitLibrary => "ConnotInitLibrary"@,
            GraphicsError::NotSupportedSystem => "NotSupportedSystem"@,
            GraphicsError::NotSupportedDevice => "NotSupportedDevice"@,
            GraphicsError::NotSupportedPresent => "NotSupportedPresent"@,
            GraphicsError::PresentError => "PresentError"@,
            GraphicsError::TransferError => "TransferError"@,
            GraphicsError::RenderingError => "RenderingError"@,
            GraphicsError::SyncError => "SyncError"@,
            GraphicsError::ResourceError => "ResourceError"@,
            GraphicsError::ShaderError => "ShaderError"@,
            GraphicsError::MemoryError => "MemoryError"@,
            GraphicsError::DataError => "DataError"@,
            GraphicsError::ImageError => "ImageError"@,
            GraphicsError::DebugError => "DebugError"@,
        }
    }

    /// Returns the text that displaying the error shows: the variant's name.
    pub fn name(&self) -> (r: &'static str)
        ensures
            r@ == self.spec_name(),
    {
        match self {
            GraphicsError::ConnotInitLibrary => "ConnotInitLibrary",
            GraphicsError::NotSupportedSystem => "NotSupportedSystem",
            GraphicsError::NotSupportedDevice => "NotSupportedDevice",
            GraphicsError::NotSupportedPresent => "NotSupportedPresent",
            GraphicsError::PresentError => "PresentError",
            GraphicsError::TransferError => "TransferError",
            GraphicsError::RenderingError => "RenderingError",
            GraphicsError::SyncError => "SyncError",
            GraphicsError::ResourceError => "ResourceError",
            GraphicsError::ShaderError => "ShaderError",
            GraphicsError::MemoryError => "MemoryError",
            GraphicsError::DataError => "DataError",
            GraphicsError::ImageError => "ImageError",
            GraphicsError::DebugError => "DebugError",
        }
    }

    /// Returns the displayed text of the error as an owned string.
    pub fn to_string(&self) -> (r: String)
        ensures
            r@ == self.spec_name(),
    {
        String::from_str(self.name())
    }
}

} // verus!
