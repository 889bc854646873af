//! The Direct3D12 backend shim: building a raster execution context from a
//! native device/queue pair (which needs the matching display adapter found by
//! device identity), wrapping an acquired swapchain texture as a drawable
//! render target, and importing an external texture as a sampleable image.

use vstd::prelude::*;

use crate::backend::{AlphaType, Backend, DirectContext, NativeDevice, SurfaceOrigin, WgpuTexture};
use crate::error::ContextError;
use crate::format::{ColorType, TextureFormat};

verus! {

/// A pixel format of the display subsystem, as a texture resource reports it.
/// Only the two formats the import path recognizes are distinguished.
#[derive(Clone, Copy, Debug, PartialEq, Eq, Structural)]
pub enum DxgiFormat {
    R8g8b8a8Unorm,
    R8g8b8a8UnormSrgb,
    Other,
}

/// The format a texture of the portable GPU layer carries at the display
/// subsystem level.
pub open spec fn spec_dxgi_format_of(format: TextureFormat) -> DxgiFormat {
    match format {
        TextureFormat::Rgba8Unorm => DxgiFormat::R8g8b8a8Unorm,
        TextureFormat::Rgba8UnormSrgb => DxgiFormat::R8g8b8a8UnormSrgb,
        _ => DxgiFormat::Other,
    }
}

pub fn dxgi_format_of(format: TextureFormat) -> (r: DxgiFormat)
    ensures
        r == spec_dxgi_format_of(format),
{
    match format {
        TextureFormat::Rgba8Unorm => DxgiFormat::R8g8b8a8Unorm,
        TextureFormat::Rgba8UnormSrgb => DxgiFormat::R8g8b8a8UnormSrgb,
        _ => DxgiFormat::Other,
    }
}

/// The color type given to an imported Direct3D12 texture, decided by the
/// format its resource description reports.
pub open spec fn spec_dx12_color_type(format: DxgiFormat) -> Option<ColorType> {
    match format {
        DxgiFormat::R8g8b8a8Unorm => Some(ColorType::Rgba8888),
        DxgiFormat::R8g8b8a8UnormSrgb => Some(ColorType::Srgba8888),
        DxgiFormat::Other => None,
    }
}

/// What probing one display adapter for the already-created device yields:
/// the adapter's handle, and the identity of the device that creating a
/// Direct3D12 device on it at the required feature level produced — `None`
/// when device creation on that adapter fails.
#[derive(Clone, Copy, Debug, PartialEq, Eq, Structural)]
pub struct AdapterCandidate {
    pub adapter: u64,
    pub device_identity: Option<u64>,
}

impl AdapterCandidate {
    /// Whether probing this adapter reproduced the device with the given
    /// identity.
    pub open spec fn spec_matches(self, device_identity: u64) -> bool {
        self.device_identity == Some(device_identity)
    }
}

/// The adapter of the first candidate that reproduces the device, `None` when
/// no candidate does.
pub open spec fn spec_matching_adapter(candidates: Seq<AdapterCandidate>, device_identity: u64) -> Option<u64>
    decreases candidates.len(),
{
    if candidates.len() == 0 {
        None
    } else if candidates[0].spec_matches(device_identity) {
        Some(candidates[0].adapter)
    } else {
        spec_matching_adapter(candidates.skip(1), device_identity)
    }
}

proof fn lemma_matching_adapter_skip(candidates: Seq<AdapterCandidate>, device_identity: u64, i: int)
    requires
        0 <= i <= candidates.len(),
        forall|j: int| 0 <= j < i ==> !candidates[j].spec_matches(device_identity),
    ensures
        spec_matching_adapter(candidates, device_identity) == spec_matching_adapter(
            candidates.skip(i),
            device_identity,
        ),
    decreases i,
{
    if i > 0 {
        lemma_matching_adapter_skip(candidates.skip(1), device_identity, i - 1);
        assert(candidates.skip(1).skip(i - 1) =~= candidates.skip(i));
    } else {
        assert(candidates.skip(0) =~= candidates);
    }
}

/// Walks the display subsystem's adapters, looking for the one whose probed
/// device is identical to the device the portable layer already created. The
/// raster library's Direct3D12 context needs this explicit adapter reference,
/// which the portable layer does not expose.
pub fn find_matching_adapter(candidates: &Vec<AdapterCandidate>, device_identity: u64) -> (r: Option<
    u64,
>)
    ensures
        r == spec_matching_adapter(candidates@, device_identity),
{
    let n = candidates.len();
    let mut i: usize = 0;
    while i < n
        invariant
            n == candidates@.len(),
            0 <= i <= n,
            forall|j: int| 0 <= j < i ==> !candidates@[j].spec_matches(device_identity),
        decreases n - i,
    {
        let candidate = candidates[i];
        let found = match candidate.device_identity {
            Some(identity) => identity == device_identity,
            None => false,
        };
        if found {
            proof {
                lemma_matching_adapter_skip(candidates@, device_identity, i as int);
                assert(candidates@.skip(i as int)[0] == candidates@[i as int]);
            }
            return Some(candidate.adapter);
        }
        i += 1;
    }
    proof {
        lemma_matching_adapter_skip(candidates@, device_identity, n as int);
        assert(candidates@.skip(n as int).len() == 0);
    }
    None
}

/// The outcome of building a Direct3D12 raster context from a native device.
pub open spec fn spec_make_dx12_context(device: NativeDevice, candidates: Seq<AdapterCandidate>) -> Result<
    DirectContext,
    ContextError,
> {
    if device.backend != Backend::Dx12 {
        Err(ContextError::WrongBackend)
    } else {
        match spec_matching_adapter(candidates, device.device) {
            Some(adapter) => Ok(
                DirectContext::Dx12 { adapter, device: device.device, queue: device.queue },
            ),
            None => Err(ContextError::NoMatchingAdapter),
        }
    }
}

/// Builds a Direct3D12 raster execution context from the native device and
/// queue the portable layer exposed. Fails when the device belongs to another
/// backend, or when no display adapter reproduces it at the required feature
/// level.
pub fn make_dx12_context(device: &NativeDevice, candidates: &Vec<AdapterCandidate>) -> (r: Result<
    DirectContext,
    ContextError,
>)
    ensures
        r == spec_make_dx12_context(*device, candidates@),
{
    if device.backend != Backend::Dx12 {
        return Err(ContextError::WrongBackend);
    }
    match find_matching_adapter(candidates, device.device) {
        Some(adapter) => Ok(
            DirectContext::Dx12 { adapter, device: device.device, queue: device.queue },
        ),
        None => Err(ContextError::NoMatchingAdapter),
    }
}

/// Context construction fails cleanly, with the wrong-backend cause, whenever
/// the device belongs to a backend other than Direct3D12.
pub proof fn lemma_dx12_context_wrong_backend_fails(
    device: NativeDevice,
    candidates: Seq<AdapterCandidate>,
)
    requires
        device.backend != Backend::Dx12,
    ensures
        spec_make_dx12_context(device, candidates) == Err::<DirectContext, ContextError>(
            ContextError::WrongBackend,
        ),
{
}

/// The state a Direct3D12 resource is taken in when it is handed to the
/// raster library.
#[derive(Clone, Copy, Debug, PartialEq, Eq, Structural)]
pub enum Dx12ResourceState {
    Common,
    Present,
    RenderTarget,
}

/// The description under which an acquired swapchain texture is handed to the
/// raster library as a Direct3D12 render target. The resource is taken in the
/// present state; format, sample count and mip level count are fixed.
#[derive(Clone, Copy, Debug, PartialEq, Eq, Structural)]
pub struct Dx12RenderTarget {
    pub texture: u64,
    pub width: u32,
    pub height: u32,
    pub resource_state: Dx12ResourceState,
    pub format: DxgiFormat,
    pub sample_count: u32,
    pub level_count: u32,
    pub color_type: ColorType,
    pub origin: SurfaceOrigin,
}

/// Describes the acquired swapchain texture as a drawable Direct3D12 render
/// target for the raster library: fixed 8-bit RGBA format, one sample, one
/// mip level, top-left origin. Yields nothing when the context is bound to
/// another backend, since the native texture handle cannot then be extracted.
pub fn make_dx12_surface(
    width: u32,
    height: u32,
    gr_context: &DirectContext,
    frame: &WgpuTexture,
) -> (r: Option<Dx12RenderTarget>)
    ensures
        r is Some <==> gr_context.spec_backend() == Backend::Dx12,
        r matches Some(t) ==> t == (Dx12RenderTarget {
            texture: frame.id,
            width,
            height,
            resource_state: Dx12ResourceState::Present,
            format: DxgiFormat::R8g8b8a8Unorm,
            sample_count: 1,
            level_count: 1,
            color_type: ColorType::Rgba8888,
            origin: SurfaceOrigin::TopLeft,
        }),
{
    match gr_context {
        DirectContext::Dx12 { .. } => Some(
            Dx12RenderTarget {
                texture: frame.id,
                width,
                height,
                resource_state: Dx12ResourceState::Present,
                format: DxgiFormat::R8g8b8a8Unorm,
                sample_count: 1,
                level_count: 1,
                color_type: ColorType::Rgba8888,
                origin: SurfaceOrigin::TopLeft,
            },
        ),
        _ => None,
    }
}

/// The description under which an external Direct3D12 texture is handed to
/// the raster library as a sampleable image: taken in the present state,
/// externally owned (never freed by the raster library), straight alpha,
/// top-left origin.
#[derive(Clone, Copy, Debug, PartialEq, Eq, Structural)]
pub struct Dx12ImageDesc {
    pub texture: u64,
    pub width: u32,
    pub height: u32,
    pub resource_state: Dx12ResourceState,
    pub format: DxgiFormat,
    pub sample_count: u32,
    pub level_count: u32,
    pub color_type: ColorType,
    pub alpha: AlphaType,
    pub origin: SurfaceOrigin,
    pub externally_owned: bool,
}

/// Describes an external texture as a sampleable Direct3D12 image for the
/// raster library. `resource_format` is what the texture's resource
/// description reports; only the two 8-bit RGBA variants are accepted.
/// Yields nothing when the context is bound to another backend or the format
/// is unsupported.
pub fn import_dx12_texture(
    gr_context: &DirectContext,
    texture: &WgpuTexture,
    resource_format: DxgiFormat,
) -> (r: Option<Dx12ImageDesc>)
    ensures
        r is Some <==> gr_context.spec_backend() == Backend::Dx12 && spec_dx12_color_type(
            resource_format,
        ) is Some,
        r matches Some(d) ==> d == (Dx12ImageDesc {
            texture: texture.id,
            width: texture.width,
            height: texture.height,
            resource_state: Dx12ResourceState::Present,
            format: resource_format,
            sample_count: 1,
            level_count: 1,
            color_type: spec_dx12_color_type(resource_format)->Some_0,
            alpha: AlphaType::Unpremul,
            origin: SurfaceOrigin::TopLeft,
            externally_owned: true,
        }),
{
    match gr_context {
        DirectContext::Dx12 { .. } => {
            let color_type = match resource_format {
                DxgiFormat::R8g8b8a8Unorm => ColorType::Rgba8888,
                DxgiFormat::R8g8b8a8UnormSrgb => ColorType::Srgba8888,
                DxgiFormat::Other => { return None },
            };
            Some(
                Dx12ImageDesc {
                    texture: texture.id,
                    width: texture.width,
                    height: texture.height,
                    resource_state: Dx12ResourceState::Present,
                    format: resource_format,
                    sample_count: 1,
                    level_count: 1,
                    color_type,
                    alpha: AlphaType::Unpremul,
                    origin: SurfaceOrigin::TopLeft,
                    externally_owned: true,
                },
            )
        },
        _ => None,
    }
}

} // verus!
