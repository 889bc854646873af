//! The error taxonomy of the interop layer. Construction failures of native
//! GPU objects surface as a single opaque platform error with a fixed
//! human-readable reason; the per-backend causes of a failed context
//! construction are kept apart in [`ContextError`] and collapsed by the
//! surface facade.

use vstd::prelude::*;

verus! {

/// An error the surface reports to the embedding toolkit.
#[derive(Clone, Copy, Debug, PartialEq, Eq, Structural)]
pub enum PlatformError {
    /// The adapter reported no presentation format for the surface.
    NoSurfaceFormats,
    /// A surface was created or resized with a zero width or height.
    InvalidSurfaceSize,
    /// No raster execution context could be built from the native device and
    /// queue.
    ContextCreationFailed,
    /// Render was asked for a target size other than the configured one.
    ConfigurationMismatch,
    /// The presentation engine yielded no next swapchain texture.
    SwapchainAcquireFailed,
    /// The raster library refused to wrap the acquired swapchain texture as a
    /// drawable surface.
    SurfaceWrapFailed,
}

/// Why a raster execution context could not be built from a native device.
#[derive(Clone, Copy, Debug, PartialEq, Eq, Structural)]
pub enum ContextError {
    /// The portable GPU layer could not yield a native handle for the
    /// requested backend; the device belongs to another backend.
    WrongBackend,
    /// No display adapter matched the already-created device (Direct3D12
    /// only, where the raster library needs an explicit adapter reference).
    NoMatchingAdapter,
}

impl PlatformError {
    /// The fixed human-readable reason attached to the error.
    pub fn message(&self) -> (r: String)
        ensures
            self is ContextCreationFailed ==> r@ == "Failed to create Skia context from WGPU"@,
            self is SurfaceWrapFailed ==> r@ == "Failed to Skia surface from WGPU"@,
            self is SwapchainAcquireFailed ==> r@ == "unable to get next texture from swapchain"@,
            self is NoSurfaceFormats ==> r@ == "surface reports no supported formats"@,
            self is InvalidSurfaceSize ==> r@ == "surface size must be non-zero"@,
            self is ConfigurationMismatch ==> r@ == "render size does not match the surface configuration"@,
    {
        match self {
            PlatformError::NoSurfaceFormats => "surface reports no supported formats".to_string(),
            PlatformError::InvalidSurfaceSize => "surface size must be non-zero".to_string(),
            PlatformError::ContextCreationFailed => "Failed to create Skia context from WGPU".to_string(),
            PlatformError::ConfigurationMismatch => "render size does not match the surface configuration".to_string(),
            PlatformError::SwapchainAcquireFailed => "unable to get next texture from swapchain".to_string(),
            PlatformError::SurfaceWrapFailed => "Failed to Skia surface from WGPU".to_string(),
        }
    }
}

} // verus!
