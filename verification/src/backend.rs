//! Plain-value models of the native handles that cross the interop boundary.
//!
//! The portable GPU layer and the raster library exchange opaque,
//! reference-counted native objects. The logic of this crate never reads
//! inside them; it only routes them and reads a few plain properties (which
//! backend owns a device, a texture's size and format). Those properties are
//! what these types hold, with each native object itself standing behind an
//! integer handle chosen by the embedding application.

use vstd::prelude::*;

use crate::format::TextureFormat;

verus! {

/// A GPU backend of the portable layer.
#[derive(Clone, Copy, Debug, PartialEq, Eq, Structural)]
pub enum Backend {
    Dx12,
    Metal,
    Vulkan,
    Gl,
    WebGpu,
    Noop,
}

/// The native handles the portable GPU layer can expose for a device/queue
/// pair, together with the backend that owns them. Handles that only one
/// backend uses (the Vulkan instance, physical device and queue family) carry
/// that backend's values and are ignored elsewhere.
#[derive(Clone, Copy, Debug, PartialEq, Eq, Structural)]
pub struct NativeDevice {
    pub backend: Backend,
    pub instance: u64,
    pub physical_device: u64,
    pub device: u64,
    pub queue: u64,
    pub queue_family_index: u32,
}

/// The raster library's execution context, bound to the native device and
/// queue it was built from. One exists per surface, built once at surface
/// creation and never rebuilt except by recreating the surface.
#[derive(Clone, Copy, Debug, PartialEq, Eq, Structural)]
pub enum DirectContext {
    Dx12 { adapter: u64, device: u64, queue: u64 },
    Metal { device: u64, queue: u64 },
    Vulkan { instance: u64, physical_device: u64, device: u64, queue: u64, queue_family_index: u32 },
}

impl DirectContext {
    /// The backend whose native handles the context is bound to.
    pub open spec fn spec_backend(self) -> Backend {
        match self {
            DirectContext::Dx12 { .. } => Backend::Dx12,
            DirectContext::Metal { .. } => Backend::Metal,
            DirectContext::Vulkan { .. } => Backend::Vulkan,
        }
    }

    pub fn backend(&self) -> (r: Backend)
        ensures
            r == self.spec_backend(),
    {
        match self {
            DirectContext::Dx12 { .. } => Backend::Dx12,
            DirectContext::Metal { .. } => Backend::Metal,
            DirectContext::Vulkan { .. } => Backend::Vulkan,
        }
    }
}

/// The plain properties of a texture of the portable GPU layer: the handle
/// standing for the native object, its pixel size, and its format.
#[derive(Clone, Copy, Debug, PartialEq, Eq, Structural)]
pub struct WgpuTexture {
    pub id: u64,
    pub width: u32,
    pub height: u32,
    pub format: TextureFormat,
}

/// Which corner of a wrapped render target the raster library treats as the
/// origin.
#[derive(Clone, Copy, Debug, PartialEq, Eq, Structural)]
pub enum SurfaceOrigin {
    TopLeft,
    BottomLeft,
}

/// How the raster library interprets alpha in an imported image.
#[derive(Clone, Copy, Debug, PartialEq, Eq, Structural)]
pub enum AlphaType {
    Unpremul,
    Premul,
    Opaque,
}

} // verus!
