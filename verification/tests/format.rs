use wgpu_surface::format::{choose_present_format, import_color_type, ColorType, TextureFormat};

#[test]
fn negotiation_prefers_first_non_srgb() {
    let formats = vec![
        TextureFormat::Rgba8UnormSrgb,
        TextureFormat::Bgra8Unorm,
        TextureFormat::Bgra8UnormSrgb,
        TextureFormat::Rgba8Unorm,
    ];
    assert_eq!(choose_present_format(&formats), Some(TextureFormat::Bgra8Unorm));
}

#[test]
fn negotiation_takes_first_when_all_srgb() {
    let formats = vec![
        TextureFormat::Rgba8UnormSrgb,
        TextureFormat::Bgra8UnormSrgb,
        TextureFormat::Other { srgb: true },
    ];
    assert_eq!(choose_present_format(&formats), Some(TextureFormat::Rgba8UnormSrgb));
}

#[test]
fn negotiation_of_no_formats_is_none() {
    let formats: Vec<TextureFormat> = Vec::new();
    assert_eq!(choose_present_format(&formats), None);
}

#[test]
fn negotiation_reads_srgb_tag_of_unknown_formats() {
    let formats = vec![TextureFormat::Other { srgb: true }, TextureFormat::Other { srgb: false }];
    assert_eq!(choose_present_format(&formats), Some(TextureFormat::Other { srgb: false }));
}

#[test]
fn negotiation_keeps_leading_non_srgb() {
    let formats = vec![TextureFormat::Bgra8Unorm, TextureFormat::Rgba8Unorm];
    assert_eq!(choose_present_format(&formats), Some(TextureFormat::Bgra8Unorm));
}

#[test]
fn srgb_formats_are_recognized() {
    assert!(!TextureFormat::Rgba8Unorm.is_srgb());
    assert!(TextureFormat::Rgba8UnormSrgb.is_srgb());
    assert!(!TextureFormat::Bgra8Unorm.is_srgb());
    assert!(TextureFormat::Bgra8UnormSrgb.is_srgb());
    assert!(TextureFormat::Other { srgb: true }.is_srgb());
    assert!(!TextureFormat::Other { srgb: false }.is_srgb());
}

#[test]
fn import_accepts_rgba8_unorm() {
    assert_eq!(import_color_type(TextureFormat::Rgba8Unorm), Some(ColorType::Rgba8888));
}

#[test]
fn import_accepts_rgba8_srgb() {
    assert_eq!(import_color_type(TextureFormat::Rgba8UnormSrgb), Some(ColorType::Srgba8888));
}

#[test]
fn import_refuses_other_formats() {
    assert_eq!(import_color_type(TextureFormat::Bgra8Unorm), None);
    assert_eq!(import_color_type(TextureFormat::Bgra8UnormSrgb), None);
    assert_eq!(import_color_type(TextureFormat::Other { srgb: false }), None);
    assert_eq!(import_color_type(TextureFormat::Other { srgb: true }), None);
}
