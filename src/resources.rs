use vstd::prelude::*;

verus! {

/// Width of the offscreen target, whatever the window's size.
pub const OFFSCREEN_WIDTH: u32 = 800;

/// Height of the offscreen target, whatever the window's size.
pub const OFFSCREEN_HEIGHT: u32 = 600;

/// Bytes per pixel of tightly packed RGBA8 data.
pub const RGBA8_BYTES: u32 = 4;

/// Color formats that a presentation surface may offer.
#[derive(Clone, Copy, Debug, PartialEq, Eq, Structural)]
pub enum ColorFormat {
    Rgba8Unorm,
    Rgba8UnormSrgb,
    Bgra8Unorm,
    Bgra8UnormSrgb,
    Rgba16Float,
    Rgb10a2Unorm,
}

/// The sRGB counterpart of a format where it has one, else the format itself.
pub open spec fn srgb_of(f: ColorFormat) -> ColorFormat {
    match f {
        ColorFormat::Rgba8Unorm => ColorFormat::Rgba8UnormSrgb,
        ColorFormat::Bgra8Unorm => ColorFormat::Bgra8UnormSrgb,
        other => other,
    }
}

impl ColorFormat {
    /// The sRGB counterpart of this format where it has one, else the format itself.
    pub fn add_srgb_suffix(self) -> (r: ColorFormat)
        ensures
            r == srgb_of(self),
    {
        match self {
            ColorFormat::Rgba8Unorm => ColorFormat::Rgba8UnormSrgb,
            ColorFormat::Bgra8Unorm => ColorFormat::Bgra8UnormSrgb,
            other => other,
        }
    }
}

/// How a GPU image may be used.
#[derive(Clone, Copy, Debug, PartialEq, Eq, Structural)]
pub struct ImageUsage {
    pub sampled: bool,
    pub copy_destination: bool,
    pub render_attachment: bool,
}

/// A two-dimensional GPU image with one mip level and one sample per pixel.
#[derive(Clone, Copy, Debug, PartialEq, Eq, Structural)]
pub struct ImageDesc {
    pub width: u32,
    pub height: u32,
    pub format: ColorFormat,
    pub usage: ImageUsage,
}

/// The sprite atlas: sized to its pixels, sampled, and filled once by a copy.
pub open spec fn sprite_atlas_spec(width: u32, height: u32) -> ImageDesc {
    ImageDesc {
        width,
        height,
        format: ColorFormat::Rgba8UnormSrgb,
        usage: ImageUsage { sampled: true, copy_destination: true, render_attachment: false },
    }
}

/// The offscreen target: fixed size, drawn into by the first pass and sampled by the second.
pub open spec fn offscreen_target_spec(format: ColorFormat) -> ImageDesc {
    ImageDesc {
        width: OFFSCREEN_WIDTH,
        height: OFFSCREEN_HEIGHT,
        format,
        usage: ImageUsage { sampled: true, copy_destination: false, render_attachment: true },
    }
}

/// Describes the sprite atlas for decoded pixels of the given size.
pub fn sprite_atlas_desc(width: u32, height: u32) -> (r: ImageDesc)
    ensures
        r == sprite_atlas_spec(width, height),
{
    ImageDesc {
        width,
        height,
        format: ColorFormat::Rgba8UnormSrgb,
        usage: ImageUsage { sampled: true, copy_destination: true, render_attachment: false },
    }
}

/// Describes the offscreen target in the surface's color format.
pub fn offscreen_target_desc(format: ColorFormat) -> (r: ImageDesc)
    ensures
        r == offscreen_target_spec(format),
{
    ImageDesc {
        width: OFFSCREEN_WIDTH,
        height: OFFSCREEN_HEIGHT,
        format,
        usage: ImageUsage { sampled: true, copy_destination: false, render_attachment: true },
    }
}

/// Pixel filtering.
#[derive(Clone, Copy, Debug, PartialEq, Eq, Structural)]
pub enum Filter {
    Nearest,
    Linear,
}

/// Addressing outside the image.
#[derive(Clone, Copy, Debug, PartialEq, Eq, Structural)]
pub enum AddressMode {
    ClampToEdge,
    Repeat,
}

/// Filtering and addressing of the sampler that both passes share.
#[derive(Clone, Copy, Debug, PartialEq, Eq, Structural)]
pub struct SamplerDesc {
    pub mag_filter: Filter,
    pub min_filter: Filter,
    pub mipmap_filter: Filter,
    pub address_mode: AddressMode,
}

/// The shared sampler: nearest filtering throughout, clamped at the edges.
pub open spec fn shared_sampler_spec() -> SamplerDesc {
    SamplerDesc {
        mag_filter: Filter::Nearest,
        min_filter: Filter::Nearest,
        mipmap_filter: Filter::Nearest,
        address_mode: AddressMode::ClampToEdge,
    }
}

/// Describes the one sampler of the renderer.
pub fn shared_sampler() -> (r: SamplerDesc)
    ensures
        r == shared_sampler_spec(),
{
    SamplerDesc {
        mag_filter: Filter::Nearest,
        min_filter: Filter::Nearest,
        mipmap_filter: Filter::Nearest,
        address_mode: AddressMode::ClampToEdge,
    }
}

} // verus!
