//! Pixel formats of the portable GPU layer, the raster library's color types,
//! and the two format decisions made at the interop boundary: negotiating the
//! presentation format of a freshly created surface, and mapping the format of
//! an imported texture to a color type the raster library accepts.

use vstd::prelude::*;

verus! {

/// A texture format as the portable GPU layer reports it. Only the formats the
/// interop layer inspects are distinguished; every other format is `Other`,
/// tagged with whether it is an sRGB format.
#[derive(Clone, Copy, Debug, PartialEq, Eq, Structural)]
pub enum TextureFormat {
    Rgba8Unorm,
    Rgba8UnormSrgb,
    Bgra8Unorm,
    Bgra8UnormSrgb,
    Other { srgb: bool },
}

/// A color type of the raster library. Only the three that the interop layer
/// ever selects are present.
#[derive(Clone, Copy, Debug, PartialEq, Eq, Structural)]
pub enum ColorType {
    Rgba8888,
    Srgba8888,
    Bgra8888,
}

impl TextureFormat {
    /// Whether the format stores channels with an sRGB transfer function.
    pub open spec fn spec_is_srgb(self) -> bool {
        match self {
            TextureFormat::Rgba8Unorm => false,
            TextureFormat::Rgba8UnormSrgb => true,
            TextureFormat::Bgra8Unorm => false,
            TextureFormat::Bgra8UnormSrgb => true,
            TextureFormat::Other { srgb } => srgb,
        }
    }

    pub fn is_srgb(&self) -> (r: bool)
        ensures
            r == self.spec_is_srgb(),
    {
        match self {
            TextureFormat::Rgba8UnormSrgb => true,
            TextureFormat::Bgra8UnormSrgb => true,
            TextureFormat::Other { srgb } => *srgb,
            _ => false,
        }
    }
}

/// The color type an imported texture is given, `None` when its format is not
/// one of the two recognized 8-bit RGBA variants.
pub open spec fn spec_import_color_type(format: TextureFormat) -> Option<ColorType> {
    match format {
        TextureFormat::Rgba8Unorm => Some(ColorType::Rgba8888),
        TextureFormat::Rgba8UnormSrgb => Some(ColorType::Srgba8888),
        _ => None,
    }
}

/// Maps the format of a texture offered for import to the raster library's
/// color type. Only 8-bit RGBA, unorm or sRGB, is accepted.
pub fn import_color_type(format: TextureFormat) -> (r: Option<ColorType>)
    ensures
        r == spec_import_color_type(format),
{
    match format {
        TextureFormat::Rgba8Unorm => Some(ColorType::Rgba8888),
        TextureFormat::Rgba8UnormSrgb => Some(ColorType::Srgba8888),
        _ => None,
    }
}

/// Import accepts exactly the two 8-bit RGBA formats.
pub proof fn lemma_import_recognizes_rgba8(format: TextureFormat)
    ensures
        spec_import_color_type(format) is Some <==> (format == TextureFormat::Rgba8Unorm
            || format == TextureFormat::Rgba8UnormSrgb),
{
}

/// The first format in `formats` that is not sRGB, `None` when every entry is
/// sRGB or the sequence is empty.
pub open spec fn spec_first_non_srgb(formats: Seq<TextureFormat>) -> Option<TextureFormat>
    decreases formats.len(),
{
    if formats.len() == 0 {
        None
    } else if !formats[0].spec_is_srgb() {
        Some(formats[0])
    } else {
        spec_first_non_srgb(formats.skip(1))
    }
}

/// The presentation format negotiated from the list the adapter reports: the
/// first non-sRGB format, or the first reported format when all are sRGB.
/// `None` only when the adapter reports no formats at all.
pub open spec fn spec_negotiated_format(formats: Seq<TextureFormat>) -> Option<TextureFormat> {
    if formats.len() == 0 {
        None
    } else {
        match spec_first_non_srgb(formats) {
            Some(f) => Some(f),
            None => Some(formats[0]),
        }
    }
}

proof fn lemma_first_non_srgb_skip(formats: Seq<TextureFormat>, i: int)
    requires
        0 <= i <= formats.len(),
        forall|j: int| 0 <= j < i ==> formats[j].spec_is_srgb(),
    ensures
        spec_first_non_srgb(formats) == spec_first_non_srgb(formats.skip(i)),
    decreases i,
{
    if i > 0 {
        assert(formats[0].spec_is_srgb());
        lemma_first_non_srgb_skip(formats.skip(1), i - 1);
        assert(formats.skip(1).skip(i - 1) =~= formats.skip(i));
    } else {
        assert(formats.skip(0) =~= formats);
    }
}

/// Picks the presentation format for a surface from the formats its adapter
/// reports, preferring a non-sRGB format.
pub fn choose_present_format(formats: &Vec<TextureFormat>) -> (r: Option<TextureFormat>)
    ensures
        r == spec_negotiated_format(formats@),
{
    let n = formats.len();
    let mut i: usize = 0;
    while i < n
        invariant
            n == formats@.len(),
            0 <= i <= n,
            forall|j: int| 0 <= j < i ==> formats@[j].spec_is_srgb(),
        decreases n - i,
    {
        if !formats[i].is_srgb() {
            proof {
                lemma_first_non_srgb_skip(formats@, i as int);
                assert(formats@.skip(i as int)[0] == formats@[i as int]);
            }
            return Some(formats[i]);
        }
        i += 1;
    }
    proof {
        lemma_first_non_srgb_skip(formats@, n as int);
        assert(formats@.skip(n as int).len() == 0);
    }
    if n > 0 {
        Some(formats[0])
    } else {
        None
    }
}

proof fn lemma_all_srgb_no_pick(formats: Seq<TextureFormat>)
    requires
        forall|i: int| 0 <= i < formats.len() ==> formats[i].spec_is_srgb(),
    ensures
        spec_first_non_srgb(formats) is None,
    decreases formats.len(),
{
    if formats.len() > 0 {
        assert(forall|j: int|
            0 <= j < formats.skip(1).len() ==> formats.skip(1)[j] == formats[j + 1]);
        lemma_all_srgb_no_pick(formats.skip(1));
    }
}

/// Negotiation prefers non-sRGB: whenever the adapter reports at least one
/// non-sRGB format, the negotiated format is not sRGB; when every reported
/// format is sRGB, the first reported format is taken.
pub proof fn lemma_negotiation_prefers_non_srgb(formats: Seq<TextureFormat>)
    ensures
        (exists|i: int| 0 <= i < formats.len() && !formats[i].spec_is_srgb()) ==> match spec_negotiated_format(
            formats,
        ) {
            Some(f) => !f.spec_is_srgb(),
            None => false,
        },
        (formats.len() > 0 && forall|i: int|
            0 <= i < formats.len() ==> formats[i].spec_is_srgb()) ==> spec_negotiated_format(formats)
            == Some(formats[0]),
    decreases formats.len(),
{
    if formats.len() > 0 {
        lemma_negotiation_prefers_non_srgb(formats.skip(1));
        if exists|i: int| 0 <= i < formats.len() && !formats[i].spec_is_srgb() {
            if formats[0].spec_is_srgb() {
                let i = choose|i: int| 0 <= i < formats.len() && !formats[i].spec_is_srgb();
                assert(formats.skip(1)[i - 1] == formats[i]);
                assert(exists|j: int|
                    0 <= j < formats.skip(1).len() && !formats.skip(1)[j].spec_is_srgb());
            }
        }
        if forall|i: int| 0 <= i < formats.len() ==> formats[i].spec_is_srgb() {
            lemma_all_srgb_no_pick(formats);
        }
    }
}

} // verus!
