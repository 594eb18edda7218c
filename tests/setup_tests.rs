use wgpu_poc::pipeline::{texture_binding_set, uniform_binding_set, BindingEntry, ImageId, Resource};
use wgpu_poc::pipeline::{layout_entries, pipeline_desc, BindingKind, LayoutEntry, LayoutId, Program, Stage};
use wgpu_poc::resources::{
    offscreen_target_desc, shared_sampler, sprite_atlas_desc, AddressMode, ColorFormat, Filter, ImageUsage,
};
use wgpu_poc::sprite::{prepare_sprite_atlas, sprite_upload, DecodedImage, SetupError};

fn png(width: u32, height: u32) -> (Vec<u8>, Vec<u8>) {
    let pixels: Vec<u8> = (0..width * height * 4).map(|i| (i * 7 % 251) as u8).collect();
    let img = image::RgbaImage::from_raw(width, height, pixels.clone()).unwrap();
    let mut out = Vec::new();
    img.write_to(&mut std::io::Cursor::new(&mut out), image::ImageFormat::Png).unwrap();
    (out, pixels)
}

#[test]
fn sprite_atlas_is_sized_to_the_decoded_image() {
    let (file, pixels) = png(2, 3);
    let up = prepare_sprite_atlas(&file).unwrap();
    assert_eq!(up.atlas.width, 2);
    assert_eq!(up.atlas.height, 3);
    assert_eq!(up.atlas.format, ColorFormat::Rgba8UnormSrgb);
    assert_eq!(up.bytes_per_row, 8);
    assert_eq!(up.rows_per_image, 3);
    assert_eq!(up.pixels, pixels);
    assert_ne!(up.pixels, file);
}

#[test]
fn undecodable_asset_is_an_error() {
    assert!(matches!(prepare_sprite_atlas(b"not an image"), Err(SetupError::Decode)));
    assert!(matches!(prepare_sprite_atlas(&[]), Err(SetupError::Decode)));
}

#[test]
fn upload_errors() {
    let empty = DecodedImage { width: 0, height: 4, pixels: vec![] };
    assert!(matches!(sprite_upload(empty), Err(SetupError::EmptyImage)));
    let wide = DecodedImage { width: 0x4000_0000, height: 1, pixels: vec![] };
    assert!(matches!(sprite_upload(wide), Err(SetupError::RowTooLong)));
    let short = DecodedImage { width: 2, height: 2, pixels: vec![0; 15] };
    assert!(matches!(sprite_upload(short), Err(SetupError::ShortPixelData)));
    let exact = DecodedImage { width: 2, height: 2, pixels: vec![0; 16] };
    let up = sprite_upload(exact).unwrap();
    assert_eq!(up.bytes_per_row, 8);
    assert_eq!(up.atlas, sprite_atlas_desc(2, 2));
}

#[test]
fn image_descriptions() {
    let atlas = sprite_atlas_desc(64, 32);
    assert_eq!(
        atlas.usage,
        ImageUsage { sampled: true, copy_destination: true, render_attachment: false }
    );
    let target = offscreen_target_desc(ColorFormat::Bgra8UnormSrgb);
    assert_eq!((target.width, target.height), (800, 600));
    assert_eq!(target.format, ColorFormat::Bgra8UnormSrgb);
    assert_eq!(
        target.usage,
        ImageUsage { sampled: true, copy_destination: false, render_attachment: true }
    );
}

#[test]
fn sampler_is_nearest_and_clamped() {
    let s = shared_sampler();
    assert_eq!(s.mag_filter, Filter::Nearest);
    assert_eq!(s.min_filter, Filter::Nearest);
    assert_eq!(s.mipmap_filter, Filter::Nearest);
    assert_eq!(s.address_mode, AddressMode::ClampToEdge);
}

#[test]
fn srgb_suffix() {
    assert_eq!(ColorFormat::Bgra8Unorm.add_srgb_suffix(), ColorFormat::Bgra8UnormSrgb);
    assert_eq!(ColorFormat::Rgba8Unorm.add_srgb_suffix(), ColorFormat::Rgba8UnormSrgb);
    assert_eq!(ColorFormat::Rgba8UnormSrgb.add_srgb_suffix(), ColorFormat::Rgba8UnormSrgb);
    assert_eq!(ColorFormat::Rgba16Float.add_srgb_suffix(), ColorFormat::Rgba16Float);
}

#[test]
fn binding_layouts() {
    assert_eq!(
        layout_entries(LayoutId::Texture),
        vec![
            LayoutEntry { binding: 0, visibility: Stage::Fragment, kind: BindingKind::SampledImage },
            LayoutEntry { binding: 1, visibility: Stage::Fragment, kind: BindingKind::FilteringSampler },
        ]
    );
    assert_eq!(
        layout_entries(LayoutId::Uniform),
        vec![LayoutEntry { binding: 0, visibility: Stage::Vertex, kind: BindingKind::UniformBuffer }]
    );
}

#[test]
fn pipelines_consume_their_slots() {
    let fb = pipeline_desc(Program::Framebuffer, ColorFormat::Bgra8Unorm);
    assert_eq!(fb.layouts, vec![LayoutId::Texture, LayoutId::Uniform]);
    assert_eq!(fb.color_target, ColorFormat::Bgra8Unorm);
    let pp = pipeline_desc(Program::PostProcess, ColorFormat::Bgra8Unorm);
    assert_eq!(pp.layouts, vec![LayoutId::Texture]);
    assert_eq!(pp.program, Program::PostProcess);
}

#[test]
fn binding_sets_fill_their_layouts() {
    assert_eq!(
        texture_binding_set(ImageId::OffscreenTarget),
        vec![
            BindingEntry { binding: 0, resource: Resource::Image(ImageId::OffscreenTarget) },
            BindingEntry { binding: 1, resource: Resource::SharedSampler },
        ]
    );
    assert_eq!(
        texture_binding_set(ImageId::SpriteAtlas)[0].resource,
        Resource::Image(ImageId::SpriteAtlas)
    );
    assert_eq!(
        uniform_binding_set(3),
        vec![BindingEntry { binding: 0, resource: Resource::UniformBuffer(3) }]
    );
}
