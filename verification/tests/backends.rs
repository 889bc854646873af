use wgpu_surface::backend::{
    AlphaType, Backend, DirectContext, NativeDevice, SurfaceOrigin, WgpuTexture,
};
use wgpu_surface::dx12::{
    dxgi_format_of, find_matching_adapter, import_dx12_texture, make_dx12_context,
    make_dx12_surface, AdapterCandidate, Dx12ResourceState, DxgiFormat,
};
use wgpu_surface::error::ContextError;
use wgpu_surface::format::{ColorType, TextureFormat};
use wgpu_surface::metal::{import_metal_texture, make_metal_context, make_metal_surface};
use wgpu_surface::vulkan::{
    import_vulkan_texture, make_vulkan_context, VkFormat, VkImageLayout, VkImageTiling,
};

fn native(backend: Backend) -> NativeDevice {
    NativeDevice {
        backend,
        instance: 11,
        physical_device: 12,
        device: 13,
        queue: 14,
        queue_family_index: 2,
    }
}

fn texture(format: TextureFormat) -> WgpuTexture {
    WgpuTexture { id: 77, width: 64, height: 32, format }
}

#[test]
fn vulkan_context_carries_all_native_handles() {
    let ctx = make_vulkan_context(&native(Backend::Vulkan)).unwrap();
    assert_eq!(
        ctx,
        DirectContext::Vulkan {
            instance: 11,
            physical_device: 12,
            device: 13,
            queue: 14,
            queue_family_index: 2,
        }
    );
}

#[test]
fn metal_context_carries_device_and_queue() {
    let ctx = make_metal_context(&native(Backend::Metal)).unwrap();
    assert_eq!(ctx, DirectContext::Metal { device: 13, queue: 14 });
}

#[test]
fn context_creation_fails_cleanly_on_wrong_backend() {
    assert_eq!(make_vulkan_context(&native(Backend::Dx12)), Err(ContextError::WrongBackend));
    assert_eq!(make_vulkan_context(&native(Backend::Gl)), Err(ContextError::WrongBackend));
    assert_eq!(make_metal_context(&native(Backend::Vulkan)), Err(ContextError::WrongBackend));
    assert_eq!(
        make_dx12_context(&native(Backend::Metal), &Vec::new()),
        Err(ContextError::WrongBackend)
    );
    assert_eq!(
        make_dx12_context(&native(Backend::Noop), &Vec::new()),
        Err(ContextError::WrongBackend)
    );
    assert_eq!(
        make_dx12_context(&native(Backend::WebGpu), &Vec::new()),
        Err(ContextError::WrongBackend)
    );
}

#[test]
fn dx12_context_takes_first_matching_adapter() {
    let candidates = vec![
        AdapterCandidate { adapter: 100, device_identity: None },
        AdapterCandidate { adapter: 101, device_identity: Some(99) },
        AdapterCandidate { adapter: 102, device_identity: Some(13) },
        AdapterCandidate { adapter: 103, device_identity: Some(13) },
    ];
    let ctx = make_dx12_context(&native(Backend::Dx12), &candidates).unwrap();
    assert_eq!(ctx, DirectContext::Dx12 { adapter: 102, device: 13, queue: 14 });
}

#[test]
fn dx12_context_fails_without_matching_adapter() {
    let candidates = vec![
        AdapterCandidate { adapter: 100, device_identity: None },
        AdapterCandidate { adapter: 101, device_identity: Some(99) },
    ];
    assert_eq!(
        make_dx12_context(&native(Backend::Dx12), &candidates),
        Err(ContextError::NoMatchingAdapter)
    );
}

#[test]
fn adapter_search_skips_failed_probes() {
    let candidates = vec![
        AdapterCandidate { adapter: 7, device_identity: None },
        AdapterCandidate { adapter: 8, device_identity: Some(5) },
    ];
    assert_eq!(find_matching_adapter(&candidates, 5), Some(8));
    assert_eq!(find_matching_adapter(&candidates, 6), None);
    assert_eq!(find_matching_adapter(&Vec::new(), 5), None);
}

#[test]
fn dx12_render_target_is_fixed_rgba8() {
    let ctx = DirectContext::Dx12 { adapter: 1, device: 2, queue: 3 };
    let target = make_dx12_surface(800, 600, &ctx, &texture(TextureFormat::Bgra8Unorm)).unwrap();
    assert_eq!(target.texture, 77);
    assert_eq!(target.width, 800);
    assert_eq!(target.height, 600);
    assert_eq!(target.resource_state, Dx12ResourceState::Present);
    assert_eq!(target.format, DxgiFormat::R8g8b8a8Unorm);
    assert_eq!(target.sample_count, 1);
    assert_eq!(target.level_count, 1);
    assert_eq!(target.color_type, ColorType::Rgba8888);
    assert_eq!(target.origin, SurfaceOrigin::TopLeft);
}

#[test]
fn metal_render_target_is_bgra() {
    let ctx = DirectContext::Metal { device: 2, queue: 3 };
    let target = make_metal_surface(320, 240, &ctx, &texture(TextureFormat::Bgra8Unorm)).unwrap();
    assert_eq!(target.texture, 77);
    assert_eq!(target.width, 320);
    assert_eq!(target.height, 240);
    assert_eq!(target.color_type, ColorType::Bgra8888);
    assert_eq!(target.origin, SurfaceOrigin::TopLeft);
}

#[test]
fn render_target_wrap_needs_matching_backend() {
    let metal_ctx = DirectContext::Metal { device: 2, queue: 3 };
    let dx12_ctx = DirectContext::Dx12 { adapter: 1, device: 2, queue: 3 };
    assert!(make_dx12_surface(8, 8, &metal_ctx, &texture(TextureFormat::Rgba8Unorm)).is_none());
    assert!(make_metal_surface(8, 8, &dx12_ctx, &texture(TextureFormat::Rgba8Unorm)).is_none());
}

#[test]
fn dx12_import_maps_resource_formats() {
    let ctx = DirectContext::Dx12 { adapter: 1, device: 2, queue: 3 };
    let tex = texture(TextureFormat::Rgba8Unorm);
    let image = import_dx12_texture(&ctx, &tex, DxgiFormat::R8g8b8a8Unorm).unwrap();
    assert_eq!(image.color_type, ColorType::Rgba8888);
    assert_eq!(image.resource_state, Dx12ResourceState::Present);
    assert_eq!(image.format, DxgiFormat::R8g8b8a8Unorm);
    assert_eq!(image.width, 64);
    assert_eq!(image.height, 32);
    assert_eq!(image.sample_count, 1);
    assert_eq!(image.level_count, 1);
    assert_eq!(image.alpha, AlphaType::Unpremul);
    assert_eq!(image.origin, SurfaceOrigin::TopLeft);
    assert!(image.externally_owned);

    let srgb = import_dx12_texture(&ctx, &tex, DxgiFormat::R8g8b8a8UnormSrgb).unwrap();
    assert_eq!(srgb.color_type, ColorType::Srgba8888);
    assert!(import_dx12_texture(&ctx, &tex, DxgiFormat::Other).is_none());
}

#[test]
fn dxgi_format_follows_portable_format() {
    assert_eq!(dxgi_format_of(TextureFormat::Rgba8Unorm), DxgiFormat::R8g8b8a8Unorm);
    assert_eq!(dxgi_format_of(TextureFormat::Rgba8UnormSrgb), DxgiFormat::R8g8b8a8UnormSrgb);
    assert_eq!(dxgi_format_of(TextureFormat::Bgra8Unorm), DxgiFormat::Other);
    assert_eq!(dxgi_format_of(TextureFormat::Other { srgb: false }), DxgiFormat::Other);
}

#[test]
fn metal_import_maps_both_rgba8_formats() {
    let ctx = DirectContext::Metal { device: 2, queue: 3 };
    let image = import_metal_texture(&ctx, &texture(TextureFormat::Rgba8Unorm)).unwrap();
    assert_eq!(image.texture, 77);
    assert!(image.externally_owned);
    assert_eq!(image.color_type, ColorType::Rgba8888);
    assert!(!image.mipmapped);
    assert_eq!(image.alpha, AlphaType::Unpremul);
    assert_eq!(image.origin, SurfaceOrigin::TopLeft);

    let srgb = import_metal_texture(&ctx, &texture(TextureFormat::Rgba8UnormSrgb)).unwrap();
    assert_eq!(srgb.color_type, ColorType::Srgba8888);
    assert!(import_metal_texture(&ctx, &texture(TextureFormat::Bgra8Unorm)).is_none());
}

#[test]
fn vulkan_import_picks_native_format() {
    let ctx = DirectContext::Vulkan {
        instance: 1,
        physical_device: 2,
        device: 3,
        queue: 4,
        queue_family_index: 0,
    };
    let image = import_vulkan_texture(&ctx, &texture(TextureFormat::Rgba8Unorm)).unwrap();
    assert_eq!(image.image, 77);
    assert_eq!(image.format, VkFormat::R8g8b8a8Unorm);
    assert_eq!(image.color_type, ColorType::Rgba8888);
    assert_eq!(image.tiling, VkImageTiling::Optimal);
    assert_eq!(image.layout, VkImageLayout::ColorAttachmentOptimal);
    assert_eq!(image.level_count, 1);
    assert_eq!(image.alpha, AlphaType::Unpremul);
    assert!(image.externally_owned);

    let srgb = import_vulkan_texture(&ctx, &texture(TextureFormat::Rgba8UnormSrgb)).unwrap();
    assert_eq!(srgb.format, VkFormat::R8g8b8a8Srgb);
    assert_eq!(srgb.color_type, ColorType::Srgba8888);
    assert!(import_vulkan_texture(&ctx, &texture(TextureFormat::Bgra8UnormSrgb)).is_none());
}
