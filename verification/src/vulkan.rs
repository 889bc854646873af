//! The Vulkan backend shim: building a raster execution context from the
//! native instance/device/queue handles, wrapping an acquired swapchain
//! texture as a drawable render target — after a blocking wait on the
//! device's pending work, so the wrap reads the texture's post-acquire
//! layout — and importing an external texture as a sampleable image.

use vstd::prelude::*;

use crate::backend::{AlphaType, Backend, DirectContext, NativeDevice, SurfaceOrigin, WgpuTexture};
use crate::error::ContextError;
use crate::format::{spec_import_color_type, ColorType, TextureFormat};
use crate::surface::WGPUSurface;

verus! {

/// A native Vulkan pixel format. Only the formats the interop layer selects
/// are present.
#[derive(Clone, Copy, Debug, PartialEq, Eq, Structural)]
pub enum VkFormat {
    R8g8b8a8Unorm,
    R8g8b8a8Srgb,
    B8g8r8a8Unorm,
}

/// How a native Vulkan image is tiled.
#[derive(Clone, Copy, Debug, PartialEq, Eq, Structural)]
pub enum VkImageTiling {
    Optimal,
    Linear,
}

/// The layout a native Vulkan image is taken in.
#[derive(Clone, Copy, Debug, PartialEq, Eq, Structural)]
pub enum VkImageLayout {
    ColorAttachmentOptimal,
    ShaderReadOnlyOptimal,
    Undefined,
}

/// The native Vulkan format an imported texture is described with, `None`
/// when the texture's format is not one of the two recognized 8-bit RGBA
/// variants.
pub open spec fn spec_vulkan_format_of(format: TextureFormat) -> Option<VkFormat> {
    match format {
        TextureFormat::Rgba8Unorm => Some(VkFormat::R8g8b8a8Unorm),
        TextureFormat::Rgba8UnormSrgb => Some(VkFormat::R8g8b8a8Srgb),
        _ => None,
    }
}

/// The outcome of building a Vulkan raster context from a native device.
pub open spec fn spec_make_vulkan_context(device: NativeDevice) -> Result<
    DirectContext,
    ContextError,
> {
    if device.backend == Backend::Vulkan {
        Ok(
            DirectContext::Vulkan {
                instance: device.instance,
                physical_device: device.physical_device,
                device: device.device,
                queue: device.queue,
                queue_family_index: device.queue_family_index,
            },
        )
    } else {
        Err(ContextError::WrongBackend)
    }
}

/// Builds a Vulkan raster execution context from the native handles the
/// portable layer exposed: instance, physical device, device, and the queue
/// with its family index. Fails when the device belongs to another backend.
pub fn make_vulkan_context(device: &NativeDevice) -> (r: Result<DirectContext, ContextError>)
    ensures
        r == spec_make_vulkan_context(*device),
{
    if device.backend == Backend::Vulkan {
        Ok(
            DirectContext::Vulkan {
                instance: device.instance,
                physical_device: device.physical_device,
                device: device.device,
                queue: device.queue,
                queue_family_index: device.queue_family_index,
            },
        )
    } else {
        Err(ContextError::WrongBackend)
    }
}

/// Context construction fails cleanly, with the wrong-backend cause, whenever
/// the device belongs to a backend other than Vulkan.
pub proof fn lemma_vulkan_context_wrong_backend_fails(device: NativeDevice)
    requires
        device.backend != Backend::Vulkan,
    ensures
        spec_make_vulkan_context(device) == Err::<DirectContext, ContextError>(
            ContextError::WrongBackend,
        ),
{
}

/// The description under which an acquired swapchain texture is handed to
/// the raster library as a Vulkan render target. Presentation on Vulkan
/// draws in BGRA with a top-left origin; the image is optimally tiled, in
/// the color-attachment layout, with one mip level. `wait_for_device` records
/// the load-bearing blocking wait on the device's pending work that must
/// precede the wrap, so the wrap reads the texture's post-acquire layout.
#[derive(Clone, Copy, Debug, PartialEq, Eq, Structural)]
pub struct VulkanRenderTarget {
    pub image: u64,
    pub width: u32,
    pub height: u32,
    pub tiling: VkImageTiling,
    pub layout: VkImageLayout,
    pub format: VkFormat,
    pub level_count: u32,
    pub color_type: ColorType,
    pub origin: SurfaceOrigin,
    pub wait_for_device: bool,
}

impl WGPUSurface {
    /// Describes the acquired swapchain texture as a drawable Vulkan render
    /// target for the raster library. Yields nothing when the surface's
    /// context is bound to another backend, since the native image handle
    /// cannot then be extracted.
    pub fn make_vulkan_surface(&self, width: u32, height: u32, frame: &WgpuTexture) -> (r: Option<
        VulkanRenderTarget,
    >)
        ensures
            r is Some <==> self.gr_context.spec_backend() == Backend::Vulkan,
            r matches Some(t) ==> t == (VulkanRenderTarget {
                image: frame.id,
                width,
                height,
                tiling: VkImageTiling::Optimal,
                layout: VkImageLayout::ColorAttachmentOptimal,
                format: VkFormat::B8g8r8a8Unorm,
                level_count: 1,
                color_type: ColorType::Bgra8888,
                origin: SurfaceOrigin::TopLeft,
                wait_for_device: true,
            }),
    {
        match &self.gr_context {
            DirectContext::Vulkan { .. } => Some(
                VulkanRenderTarget {
                    image: frame.id,
                    width,
                    height,
                    tiling: VkImageTiling::Optimal,
                    layout: VkImageLayout::ColorAttachmentOptimal,
                    format: VkFormat::B8g8r8a8Unorm,
                    level_count: 1,
                    color_type: ColorType::Bgra8888,
                    origin: SurfaceOrigin::TopLeft,
                    wait_for_device: true,
                },
            ),
            _ => None,
        }
    }
}

/// The description under which an external Vulkan texture is handed to the
/// raster library as a sampleable image: externally owned (never freed by
/// the raster library), optimally tiled, in the color-attachment layout,
/// one mip level, straight alpha, top-left origin.
#[derive(Clone, Copy, Debug, PartialEq, Eq, Structural)]
pub struct VulkanImageDesc {
    pub image: u64,
    pub width: u32,
    pub height: u32,
    pub tiling: VkImageTiling,
    pub layout: VkImageLayout,
    pub format: VkFormat,
    pub level_count: u32,
    pub color_type: ColorType,
    pub alpha: AlphaType,
    pub origin: SurfaceOrigin,
    pub externally_owned: bool,
}

/// Describes an external texture as a sampleable Vulkan image for the raster
/// library. Only the two 8-bit RGBA formats are accepted. Yields nothing
/// when the context is bound to another backend or the format is
/// unsupported.
pub fn import_vulkan_texture(gr_context: &DirectContext, texture: &WgpuTexture) -> (r: Option<
    VulkanImageDesc,
>)
    ensures
        r is Some <==> gr_context.spec_backend() == Backend::Vulkan && spec_vulkan_format_of(
            texture.format,
        ) is Some,
        r matches Some(d) ==> d == (VulkanImageDesc {
            image: texture.id,
            width: texture.width,
            height: texture.height,
            tiling: VkImageTiling::Optimal,
            layout: VkImageLayout::ColorAttachmentOptimal,
            format: spec_vulkan_format_of(texture.format)->Some_0,
            level_count: 1,
            color_type: spec_import_color_type(texture.format)->Some_0,
            alpha: AlphaType::Unpremul,
            origin: SurfaceOrigin::TopLeft,
            externally_owned: true,
        }),
{
    match gr_context {
        DirectContext::Vulkan { .. } => {
            let (format, color_type) = match texture.format {
                TextureFormat::Rgba8Unorm => (VkFormat::R8g8b8a8Unorm, ColorType::Rgba8888),
                TextureFormat::Rgba8UnormSrgb => (VkFormat::R8g8b8a8Srgb, ColorType::Srgba8888),
                _ => { return None },
            };
            Some(
                VulkanImageDesc {
                    image: texture.id,
                    width: texture.width,
                    height: texture.height,
                    tiling: VkImageTiling::Optimal,
                    layout: VkImageLayout::ColorAttachmentOptimal,
                    format,
                    level_count: 1,
                    color_type,
                    alpha: AlphaType::Unpremul,
                    origin: SurfaceOrigin::TopLeft,
                    externally_owned: true,
                },
            )
        },
        _ => None,
    }
}

} // verus!
