//! Error conditions surfaced by the renderer core.

use vstd::prelude::*;

verus! {

/// A failure reported while rendering or while filling GPU resources.
#[derive(Clone, Debug, PartialEq, Eq)]
pub enum RenderError {
    /// The swap chain has been lost and needs to be recreated.
    Lost,
    /// There is no more memory left to allocate a new frame.
    OutOfMemory,
    /// The current surface texture could not be acquired.
    SurfaceError(String),
    /// Render components are not set up; the names of the missing parts.
    SetupError(Vec<&'static str>),
    /// A voxel model file could not be loaded.
    LoadVoxError(&'static str),
    /// A buffer write of the given element count exceeds the buffer's
    /// fixed capacity.
    BufferOverflow(usize),
}

impl RenderError {
    /// A short description of the failure, without its payload.
    pub fn describe(&self) -> (r: &'static str)
        ensures
            r@ == self.describe_spec(),
    {
        match self {
            RenderError::Lost => "the swap chain has been lost and needs to be recreated",
            RenderError::OutOfMemory => "there is no more memory left to allocate a new frame",
            RenderError::SurfaceError(_) => "error acquiring current texture",
            RenderError::SetupError(_) => "render components are not set up",
            RenderError::LoadVoxError(_) => "error loading vox file",
            RenderError::BufferOverflow(_) => "buffer write exceeds the buffer capacity",
        }
    }

    /// The description `describe` returns for each variant.
    pub open spec fn describe_spec(&self) -> Seq<char> {
        match self {
            RenderError::Lost => "the swap chain has been lost and needs to be recreated"@,
            RenderError::OutOfMemory => "there is no more memory left to allocate a new frame"@,
            RenderError::SurfaceError(_) => "error acquiring current texture"@,
            RenderError::SetupError(_) => "render components are not set up"@,
            RenderError::LoadVoxError(_) => "error loading vox file"@,
            RenderError::BufferOverflow(_) => "buffer write exceeds the buffer capacity"@,
        }
    }
}

} // verus!
