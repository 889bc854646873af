//! The platform-dispatching surface facade: one raster execution context, the
//! portable GPU instance/device/queue triple, the swapchain configuration,
//! and the list of imported textures still awaiting a sampling transition.
//!
//! The facade decides; the embedding application performs. Creation and
//! resizing fix the swapchain configuration, rendering turns the surface
//! state and the frame's events (was a swapchain texture acquired, did the
//! raster library wrap it) into either an error or an ordered plan of
//! submissions, and importing a texture records it for transition before the
//! next submission.

use vstd::prelude::*;

use crate::backend::{Backend, DirectContext, WgpuTexture};
use crate::dx12::{dxgi_format_of, import_dx12_texture, spec_dxgi_format_of, Dx12ImageDesc};
use crate::error::PlatformError;
use crate::format::{
    choose_present_format, spec_import_color_type, spec_negotiated_format, TextureFormat,
};
use crate::metal::{import_metal_texture, MetalImageDesc};
use crate::vulkan::{import_vulkan_texture, VulkanImageDesc};

verus! {

/// The swapchain configuration: pixel size and negotiated presentation
/// format, unconditionally re-applied to the native surface after a resize.
#[derive(Clone, Copy, Debug, PartialEq, Eq, Structural)]
pub struct SurfaceConfig {
    pub width: u32,
    pub height: u32,
    pub format: TextureFormat,
}

impl SurfaceConfig {
    /// A configuration is well-formed when its extent is non-zero.
    pub open spec fn wf(self) -> bool {
        self.width > 0 && self.height > 0
    }
}

/// The portable GPU layer's instance/device/queue triple, exposed to the
/// embedding toolkit for interop. The handles are reference-counted clones;
/// handing them out transfers no ownership.
#[derive(Clone, Copy, Debug, PartialEq, Eq, Structural)]
pub struct GraphicsApi {
    pub instance: u64,
    pub device: u64,
    pub queue: u64,
}

/// An image imported for sampling, described for the backend the surface's
/// context is bound to.
#[derive(Clone, Copy, Debug)]
pub enum ImportedImage {
    Dx12(Dx12ImageDesc),
    Metal(MetalImageDesc),
    Vulkan(VulkanImageDesc),
}

/// One step of a frame, in submission order: the caller's draw callback runs
/// first, then the one-shot batch transitioning every pending texture into a
/// shader-readable state is submitted, then the raster context flushes its own
/// recorded commands, and last the acquired texture (named by its handle) is
/// presented.
#[derive(Debug)]
pub enum RenderStep {
    Draw,
    TransitionBatch(Vec<u64>),
    FlushContext,
    Present(u64),
}

/// The surface: the raster execution context built at creation, the portable
/// GPU handles, the current swapchain configuration, the native presentable
/// surface, and the textures imported since the last frame that must be
/// transitioned before the raster context's next submission.
#[derive(Debug)]
pub struct WGPUSurface {
    pub gr_context: DirectContext,
    pub instance: u64,
    pub device: u64,
    pub queue: u64,
    pub surface: u64,
    pub surface_config: SurfaceConfig,
    pub textures_to_transition_for_sampling: Vec<u64>,
}

/// The surface as it stands after a resize to the given extent: the same
/// surface with only width and height replaced.
pub open spec fn spec_resized(s: WGPUSurface, width: u32, height: u32) -> WGPUSurface {
    WGPUSurface {
        surface_config: SurfaceConfig { width, height, ..s.surface_config },
        ..s
    }
}

/// The error a render with the given target extent and frame events reports,
/// `None` when the frame goes through: a target extent differing from the
/// configured one is a configuration mismatch, then a missed swapchain
/// acquisition, then a refused render-target wrap.
pub open spec fn spec_render_error(
    s: WGPUSurface,
    width: u32,
    height: u32,
    frame: Option<u64>,
    wrap_ok: bool,
) -> Option<PlatformError> {
    if width != s.surface_config.width || height != s.surface_config.height {
        Some(PlatformError::ConfigurationMismatch)
    } else if frame is None {
        Some(PlatformError::SwapchainAcquireFailed)
    } else if !wrap_ok {
        Some(PlatformError::SurfaceWrapFailed)
    } else {
        None
    }
}

/// The shape of a successful frame's plan: the draw callback first; exactly
/// one transition batch, carrying every pending texture in order, when any
/// are pending and none otherwise; then the raster context's flush; then the
/// presentation of the acquired frame.
pub open spec fn spec_frame_steps_ok(steps: Seq<RenderStep>, pending: Seq<u64>, frame: u64) -> bool {
    if pending.len() == 0 {
        &&& steps.len() == 3
        &&& steps[0] is Draw
        &&& steps[1] is FlushContext
        &&& (steps[2] matches RenderStep::Present(f) && f == frame)
    } else {
        &&& steps.len() == 4
        &&& steps[0] is Draw
        &&& (steps[1] matches RenderStep::TransitionBatch(batch) && batch@ == pending)
        &&& steps[2] is FlushContext
        &&& (steps[3] matches RenderStep::Present(f) && f == frame)
    }
}

impl WGPUSurface {
    /// The surface is well-formed when its swapchain configuration is.
    pub open spec fn wf(self) -> bool {
        self.surface_config.wf()
    }

    /// Builds the surface from what creating the native objects yielded: the
    /// initial extent, the presentation formats the adapter reports, the
    /// raster execution context if the platform shim could build one, and the
    /// handles of the native objects. Negotiates a non-sRGB presentation
    /// format when the adapter reports at least one. A missing context is
    /// reported as the single opaque context-creation error, whatever the
    /// per-backend cause was.
    pub fn new(
        width: u32,
        height: u32,
        formats: &Vec<TextureFormat>,
        gr_context: Option<DirectContext>,
        instance: u64,
        device: u64,
        queue: u64,
        surface: u64,
    ) -> (r: Result<WGPUSurface, PlatformError>)
        ensures
            formats@.len() == 0 ==> r == Err::<WGPUSurface, PlatformError>(
                PlatformError::NoSurfaceFormats,
            ),
            formats@.len() > 0 && (width == 0 || height == 0) ==> r == Err::<
                WGPUSurface,
                PlatformError,
            >(PlatformError::InvalidSurfaceSize),
            formats@.len() > 0 && width > 0 && height > 0 && gr_context is None ==> r == Err::<
                WGPUSurface,
                PlatformError,
            >(PlatformError::ContextCreationFailed),
            (formats@.len() > 0 && width > 0 && height > 0 && gr_context is Some) ==> (
            r matches Ok(s) && {
                &&& s.gr_context == gr_context->Some_0
                &&& s.instance == instance
                &&& s.device == device
                &&& s.queue == queue
                &&& s.surface == surface
                &&& s.surface_config == (SurfaceConfig {
                    width,
                    height,
                    format: spec_negotiated_format(formats@)->Some_0,
                })
                &&& s.textures_to_transition_for_sampling@ == Seq::<u64>::empty()
                &&& s.wf()
            }),
    {
        let format = match choose_present_format(formats) {
            Some(f) => f,
            None => { return Err(PlatformError::NoSurfaceFormats) },
        };
        if width == 0 || height == 0 {
            return Err(PlatformError::InvalidSurfaceSize);
        }
        let gr_context = match gr_context {
            Some(c) => c,
            None => { return Err(PlatformError::ContextCreationFailed) },
        };
        Ok(
            WGPUSurface {
                gr_context,
                instance,
                device,
                queue,
                surface,
                surface_config: SurfaceConfig { width, height, format },
                textures_to_transition_for_sampling: Vec::new(),
            },
        )
    }

    /// The surface's name to the embedding toolkit.
    pub fn name(&self) -> (r: &'static str)
        ensures
            r@ == "wgpu"@,
    {
        "wgpu"
    }

    /// Applies a new extent to the swapchain configuration; the embedding
    /// application then re-applies the configuration to the native surface.
    /// A zero extent is rejected and leaves the surface untouched.
    pub fn resize_event(&mut self, width: u32, height: u32) -> (r: Result<(), PlatformError>)
        ensures
            (width == 0 || height == 0) ==> r == Err::<(), PlatformError>(
                PlatformError::InvalidSurfaceSize,
            ) && *final(self) == *old(self),
            width > 0 && height > 0 ==> r == Ok::<(), PlatformError>(()) && *final(self)
                == spec_resized(*old(self), width, height) && final(self).wf(),
    {
        if width == 0 || height == 0 {
            return Err(PlatformError::InvalidSurfaceSize);
        }
        self.surface_config.width = width;
        self.surface_config.height = height;
        Ok(())
    }

    /// Renders one frame: checks the target extent against the configuration,
    /// then turns the frame's events — the acquired swapchain texture, if the
    /// presentation engine yielded one, and whether the raster library
    /// wrapped it as a drawable target — into the ordered plan the embedding
    /// application submits. A successful plan drains the pending-transition
    /// list into its single transition batch, submitted before the raster
    /// context's own flush; on any error the surface, its pending list
    /// included, is left as it was.
    pub fn render(&mut self, width: u32, height: u32, frame: Option<u64>, wrap_ok: bool) -> (r:
        Result<Vec<RenderStep>, PlatformError>)
        ensures
            r is Err <==> spec_render_error(*old(self), width, height, frame, wrap_ok) is Some,
            r matches Err(e) ==> Some(e) == spec_render_error(
                *old(self),
                width,
                height,
                frame,
                wrap_ok,
            ) && *final(self) == *old(self),
            r matches Ok(steps) ==> {
                &&& spec_frame_steps_ok(
                    steps@,
                    old(self).textures_to_transition_for_sampling@,
                    frame->Some_0,
                )
                &&& final(self).textures_to_transition_for_sampling@ == Seq::<u64>::empty()
                &&& final(self).gr_context == old(self).gr_context
                &&& final(self).surface_config == old(self).surface_config
                &&& final(self).instance == old(self).instance
                &&& final(self).device == old(self).device
                &&& final(self).queue == old(self).queue
                &&& final(self).surface == old(self).surface
            },
    {
        if width != self.surface_config.width || height != self.surface_config.height {
            return Err(PlatformError::ConfigurationMismatch);
        }
        let frame_id = match frame {
            Some(id) => id,
            None => { return Err(PlatformError::SwapchainAcquireFailed) },
        };
        if !wrap_ok {
            return Err(PlatformError::SurfaceWrapFailed);
        }
        let mut steps: Vec<RenderStep> = Vec::new();
        steps.push(RenderStep::Draw);
        if self.textures_to_transition_for_sampling.len() > 0 {
            let mut batch: Vec<u64> = Vec::new();
            core::mem::swap(&mut batch, &mut self.textures_to_transition_for_sampling);
            steps.push(RenderStep::TransitionBatch(batch));
        }
        steps.push(RenderStep::FlushContext);
        steps.push(RenderStep::Present(frame_id));
        Ok(steps)
    }

    /// The fixed nominal color depth reported to the embedding toolkit. It is
    /// not derived from the negotiated presentation format; a documented
    /// simplification.
    pub fn bits_per_pixel(&self) -> (r: Result<u8, PlatformError>)
        ensures
            r == Ok::<u8, PlatformError>(24u8),
    {
        Ok(24)
    }

    /// The surface always exposes its native GPU handles to the embedding
    /// toolkit.
    pub fn supports_graphics_api() -> (r: bool)
        ensures
            r,
    {
        true
    }

    /// As [`Self::supports_graphics_api`], queried through an instance.
    pub fn supports_graphics_api_with_self(&self) -> (r: bool)
        ensures
            r,
    {
        true
    }

    /// Hands the portable GPU layer's instance/device/queue triple to the
    /// embedding toolkit, as reference-counted clones and with no ownership
    /// transfer.
    pub fn with_graphics_api(&self) -> (r: GraphicsApi)
        ensures
            r == (GraphicsApi { instance: self.instance, device: self.device, queue: self.queue }),
    {
        GraphicsApi { instance: self.instance, device: self.device, queue: self.queue }
    }

    /// Imports an externally created texture as a sampleable image bound to
    /// the surface's raster context, described for the context's backend, and
    /// records the texture so that the next rendered frame transitions it
    /// into a shader-readable state before sampling. The texture is recorded
    /// even when its format is refused, as the raster library never sees such
    /// a texture and the transition is harmless. Yields an image exactly for
    /// the two recognized 8-bit RGBA formats.
    pub fn import_wgpu_texture(&mut self, texture: &WgpuTexture) -> (r: Option<ImportedImage>)
        ensures
            final(self).textures_to_transition_for_sampling@ == old(
                self,
            ).textures_to_transition_for_sampling@.push(texture.id),
            final(self).gr_context == old(self).gr_context,
            final(self).surface_config == old(self).surface_config,
            final(self).instance == old(self).instance,
            final(self).device == old(self).device,
            final(self).queue == old(self).queue,
            final(self).surface == old(self).surface,
            r is Some <==> spec_import_color_type(texture.format) is Some,
            r matches Some(img) ==> match img {
                ImportedImage::Dx12(d) => old(self).gr_context is Dx12 && d
                    == (crate::dx12::Dx12ImageDesc {
                    texture: texture.id,
                    width: texture.width,
                    height: texture.height,
                    resource_state: crate::dx12::Dx12ResourceState::Present,
                    format: spec_dxgi_format_of(texture.format),
                    sample_count: 1,
                    level_count: 1,
                    color_type: spec_import_color_type(texture.format)->Some_0,
                    alpha: crate::backend::AlphaType::Unpremul,
                    origin: crate::backend::SurfaceOrigin::TopLeft,
                    externally_owned: true,
                }),
                ImportedImage::Metal(d) => old(self).gr_context is Metal && d
                    == (crate::metal::MetalImageDesc {
                    texture: texture.id,
                    width: texture.width,
                    height: texture.height,
                    mipmapped: false,
                    color_type: spec_import_color_type(texture.format)->Some_0,
                    alpha: crate::backend::AlphaType::Unpremul,
                    origin: crate::backend::SurfaceOrigin::TopLeft,
                    externally_owned: true,
                }),
                ImportedImage::Vulkan(d) => old(self).gr_context is Vulkan && d
                    == (crate::vulkan::VulkanImageDesc {
                    image: texture.id,
                    width: texture.width,
                    height: texture.height,
                    tiling: crate::vulkan::VkImageTiling::Optimal,
                    layout: crate::vulkan::VkImageLayout::ColorAttachmentOptimal,
                    format: crate::vulkan::spec_vulkan_format_of(texture.format)->Some_0,
                    level_count: 1,
                    color_type: spec_import_color_type(texture.format)->Some_0,
                    alpha: crate::backend::AlphaType::Unpremul,
                    origin: crate::backend::SurfaceOrigin::TopLeft,
                    externally_owned: true,
                }),
            },
    {
        self.textures_to_transition_for_sampling.push(texture.id);
        proof {
            lemma_dxgi_mapping_agrees(texture.format);
            lemma_vulkan_mapping_agrees(texture.format);
        }
        match &self.gr_context {
            DirectContext::Dx12 { .. } => {
                let resource_format = dxgi_format_of(texture.format);
                match import_dx12_texture(&self.gr_context, texture, resource_format) {
                    Some(d) => Some(ImportedImage::Dx12(d)),
                    None => None,
                }
            },
            DirectContext::Metal { .. } => {
                match import_metal_texture(&self.gr_context, texture) {
                    Some(d) => Some(ImportedImage::Metal(d)),
                    None => None,
                }
            },
            DirectContext::Vulkan { .. } => {
                match import_vulkan_texture(&self.gr_context, texture) {
                    Some(d) => Some(ImportedImage::Vulkan(d)),
                    None => None,
                }
            },
        }
    }
}

/// The Direct3D12 import path decides by the resource's display-subsystem
/// format; that decision agrees with the portable-format one.
proof fn lemma_dxgi_mapping_agrees(format: TextureFormat)
    ensures
        crate::dx12::spec_dx12_color_type(spec_dxgi_format_of(format)) == spec_import_color_type(
            format,
        ),
{
}

/// The Vulkan import path picks a native format exactly when the portable
/// format is recognized, and the color types agree.
proof fn lemma_vulkan_mapping_agrees(format: TextureFormat)
    ensures
        crate::vulkan::spec_vulkan_format_of(format) is Some <==> spec_import_color_type(
            format,
        ) is Some,
{
}

/// A resize to a valid non-zero extent, immediately followed by a render at
/// that same extent, never fails with a configuration mismatch: the resized
/// configuration is exactly what the render checks against. The render may
/// still report the frame's own failures, a missed acquisition or a refused
/// wrap.
pub proof fn lemma_resize_then_render_config_matches(
    s: WGPUSurface,
    width: u32,
    height: u32,
    frame: Option<u64>,
    wrap_ok: bool,
)
    requires
        width > 0,
        height > 0,
    ensures
        spec_render_error(spec_resized(s, width, height), width, height, frame, wrap_ok) != Some(
            PlatformError::ConfigurationMismatch,
        ),
{
}

/// A successful frame rendered with textures pending submits exactly one
/// transition batch, and that batch carries every pending texture; together
/// with `render`'s own contract — which empties the pending list on success —
/// this is the drain-once discipline of the pending-transition list.
pub proof fn lemma_render_transitions_pending_once(
    steps: Seq<RenderStep>,
    pending: Seq<u64>,
    frame: u64,
)
    requires
        spec_frame_steps_ok(steps, pending, frame),
        pending.len() > 0,
    ensures
        steps[1] matches RenderStep::TransitionBatch(batch) && batch@ == pending,
        forall|i: int| 0 <= i < steps.len() && i != 1 ==> !(#[trigger] steps[i] is TransitionBatch),
{
}

} // verus!
