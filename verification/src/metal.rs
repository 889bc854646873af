//! The Metal backend shim: building a raster execution context from the
//! native device/queue pair, wrapping an acquired swapchain texture as a
//! drawable render target, and importing an external texture as a sampleable
//! image.

use vstd::prelude::*;

use crate::backend::{AlphaType, Backend, DirectContext, NativeDevice, SurfaceOrigin, WgpuTexture};
use crate::error::ContextError;
use crate::format::{spec_import_color_type, ColorType};

verus! {

/// The outcome of building a Metal raster context from a native device.
pub open spec fn spec_make_metal_context(device: NativeDevice) -> Result<
    DirectContext,
    ContextError,
> {
    if device.backend == Backend::Metal {
        Ok(DirectContext::Metal { device: device.device, queue: device.queue })
    } else {
        Err(ContextError::WrongBackend)
    }
}

/// Builds a Metal raster execution context from the native device and queue
/// the portable layer exposed. Fails when the device belongs to another
/// backend.
pub fn make_metal_context(device: &NativeDevice) -> (r: Result<DirectContext, ContextError>)
    ensures
        r == spec_make_metal_context(*device),
{
    if device.backend == Backend::Metal {
        Ok(DirectContext::Metal { device: device.device, queue: device.queue })
    } else {
        Err(ContextError::WrongBackend)
    }
}

/// Context construction fails cleanly, with the wrong-backend cause, whenever
/// the device belongs to a backend other than Metal.
pub proof fn lemma_metal_context_wrong_backend_fails(device: NativeDevice)
    requires
        device.backend != Backend::Metal,
    ensures
        spec_make_metal_context(device) == Err::<DirectContext, ContextError>(
            ContextError::WrongBackend,
        ),
{
}

/// The description under which an acquired swapchain texture is handed to the
/// raster library as a Metal render target. Presentation on Metal draws in
/// BGRA with a top-left origin.
#[derive(Clone, Copy, Debug, PartialEq, Eq, Structural)]
pub struct MetalRenderTarget {
    pub texture: u64,
    pub width: u32,
    pub height: u32,
    pub color_type: ColorType,
    pub origin: SurfaceOrigin,
}

/// Describes the acquired swapchain texture as a drawable Metal render target
/// for the raster library. Yields nothing when the context is bound to
/// another backend, since the native texture handle cannot then be extracted.
pub fn make_metal_surface(
    width: u32,
    height: u32,
    gr_context: &DirectContext,
    frame: &WgpuTexture,
) -> (r: Option<MetalRenderTarget>)
    ensures
        r is Some <==> gr_context.spec_backend() == Backend::Metal,
        r matches Some(t) ==> t == (MetalRenderTarget {
            texture: frame.id,
            width,
            height,
            color_type: ColorType::Bgra8888,
            origin: SurfaceOrigin::TopLeft,
        }),
{
    match gr_context {
        DirectContext::Metal { .. } => Some(
            MetalRenderTarget {
                texture: frame.id,
                width,
                height,
                color_type: ColorType::Bgra8888,
                origin: SurfaceOrigin::TopLeft,
            },
        ),
        _ => None,
    }
}

/// The description under which an external Metal texture is handed to the
/// raster library as a sampleable image: externally owned (the raster
/// library borrows it and must not free it), not mipmapped, straight alpha,
/// top-left origin.
#[derive(Clone, Copy, Debug, PartialEq, Eq, Structural)]
pub struct MetalImageDesc {
    pub texture: u64,
    pub width: u32,
    pub height: u32,
    pub mipmapped: bool,
    pub color_type: ColorType,
    pub alpha: AlphaType,
    pub origin: SurfaceOrigin,
    pub externally_owned: bool,
}

/// Describes an external texture as a sampleable Metal image for the raster
/// library. Only the two 8-bit RGBA formats are accepted. Yields nothing when
/// the context is bound to another backend or the format is unsupported.
pub fn import_metal_texture(gr_context: &DirectContext, texture: &WgpuTexture) -> (r: Option<
    MetalImageDesc,
>)
    ensures
        r is Some <==> gr_context.spec_backend() == Backend::Metal && spec_import_color_type(
            texture.format,
        ) is Some,
        r matches Some(d) ==> d == (MetalImageDesc {
            texture: texture.id,
            width: texture.width,
            height: texture.height,
            mipmapped: false,
            color_type: spec_import_color_type(texture.format)->Some_0,
            alpha: AlphaType::Unpremul,
            origin: SurfaceOrigin::TopLeft,
            externally_owned: true,
        }),
{
    match gr_context {
        DirectContext::Metal { .. } => {
            match crate::format::import_color_type(texture.format) {
                Some(color_type) => Some(
                    MetalImageDesc {
                        texture: texture.id,
                        width: texture.width,
                        height: texture.height,
                        mipmapped: false,
                        color_type,
                        alpha: AlphaType::Unpremul,
                        origin: SurfaceOrigin::TopLeft,
                        externally_owned: true,
                    },
                ),
                None => None,
            }
        },
        _ => None,
    }
}

} // verus!
