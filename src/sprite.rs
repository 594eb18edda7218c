use vstd::prelude::*;
use crate::resources::{ImageDesc, RGBA8_BYTES, sprite_atlas_desc, sprite_atlas_spec};

verus! {

/// What decoding an image file into RGBA8 gives: width, height and the
/// pixel bytes, row-major from the top; `None` when the file cannot be decoded.
pub uninterp spec fn rgba8_of(data: Seq<u8>) -> Option<(u32, u32, Seq<u8>)>;

/// Decoded pixels, four bytes per pixel.
pub struct DecodedImage {
    pub width: u32,
    pub height: u32,
    pub pixels: Vec<u8>,
}

/// Relies on image::load_from_memory, which guesses the file's format and
/// decodes it, then on DynamicImage::to_rgba8, ImageBuffer::dimensions and
/// ImageBuffer::into_raw to hand the pixels out as RGBA8 bytes.
#[verifier::external_body]
fn decode_rgba8(data: &[u8]) -> (r: Option<DecodedImage>)
    ensures
        match r {
            Some(img) => rgba8_of(data@) == Some((img.width, img.height, img.pixels@)),
            None => rgba8_of(data@) is None,
        },
{
    match image::load_from_memory(data) {
        Ok(img) => {
            let rgba = img.to_rgba8();
            let (width, height) = rgba.dimensions();
            Some(DecodedImage { width, height, pixels: rgba.into_raw() })
        },
        Err(_) => None,
    }
}

/// Why the sprite atlas cannot be made.
#[derive(Clone, Copy, Debug, PartialEq, Eq, Structural)]
pub enum SetupError {
    /// The packaged image could not be decoded.
    Decode,
    /// The image has no pixels.
    EmptyImage,
    /// A row of the image is longer than a copy can describe.
    RowTooLong,
    /// There are fewer bytes than the image's size asks for.
    ShortPixelData,
}

/// Everything needed to create the sprite atlas and fill it by one copy.
pub struct SpriteUpload {
    pub atlas: ImageDesc,
    /// Bytes from one row to the next in `pixels`.
    pub bytes_per_row: u32,
    /// Rows in the copied image.
    pub rows_per_image: u32,
    pub pixels: Vec<u8>,
}

/// The atlas and copy layout for decoded pixels of the given size: rows are
/// tightly packed, four bytes per pixel.
pub open spec fn sprite_upload_spec(width: u32, height: u32, len: nat) -> Result<
    (ImageDesc, u32, u32),
    SetupError,
> {
    if width == 0 || height == 0 {
        Err(SetupError::EmptyImage)
    } else if 4 * width > u32::MAX {
        Err(SetupError::RowTooLong)
    } else if len < 4 * width * height {
        Err(SetupError::ShortPixelData)
    } else {
        Ok((sprite_atlas_spec(width, height), (4 * width) as u32, height))
    }
}

/// `r` is what `sprite_upload_spec` gives for these pixels, and carries them.
pub open spec fn upload_of(
    r: Result<SpriteUpload, SetupError>,
    width: u32,
    height: u32,
    pixels: Seq<u8>,
) -> bool {
    match r {
        Ok(u) => sprite_upload_spec(width, height, pixels.len()) == Ok::<
            (ImageDesc, u32, u32),
            SetupError,
        >((u.atlas, u.bytes_per_row, u.rows_per_image)) && u.pixels@ == pixels,
        Err(e) => sprite_upload_spec(width, height, pixels.len()) == Err::<
            (ImageDesc, u32, u32),
            SetupError,
        >(e),
    }
}

/// Plans the atlas and its upload for decoded pixels.
pub fn sprite_upload(img: DecodedImage) -> (r: Result<SpriteUpload, SetupError>)
    ensures
        upload_of(r, img.width, img.height, img.pixels@),
{
    let DecodedImage { width, height, pixels } = img;
    if width == 0 || height == 0 {
        return Err(SetupError::EmptyImage);
    }
    if width > u32::MAX / RGBA8_BYTES {
        return Err(SetupError::RowTooLong);
    }
    let row: u32 = RGBA8_BYTES * width;
    proof {
        assert(row as u64 * height as u64 <= u64::MAX) by (nonlinear_arith)
            requires
                row <= u32::MAX,
                height <= u32::MAX,
        ;
    }
    let needed: u64 = row as u64 * height as u64;
    proof {
        assert(needed == 4 * width * height) by (nonlinear_arith)
            requires
                needed == row as u64 * height as u64,
                row == 4 * width,
        ;
    }
    if (pixels.len() as u64) < needed {
        return Err(SetupError::ShortPixelData);
    }
    Ok(
        SpriteUpload {
            atlas: sprite_atlas_desc(width, height),
            bytes_per_row: row,
            rows_per_image: height,
            pixels,
        },
    )
}

/// Decodes the packaged sprite image and plans the atlas that holds it.
pub fn prepare_sprite_atlas(data: &[u8]) -> (r: Result<SpriteUpload, SetupError>)
    ensures
        match rgba8_of(data@) {
            None => r == Err::<SpriteUpload, SetupError>(SetupError::Decode),
            Some((w, h, p)) => upload_of(r, w, h, p),
        },
{
    match decode_rgba8(data) {
        None => Err(SetupError::Decode),
        Some(img) => sprite_upload(img),
    }
}

} // verus!
