use vstd::prelude::*;
use image::ImageEncoder;

verus! {

#[verifier::external_type_specification]
#[verifier::external_body]
pub struct ExImageError(image::ImageError);

/// The PNG file that the `image` crate's PNG encoder writes for an RGBA8
/// raster of the given size.
pub uninterp spec fn png_encoding(width: u32, height: u32, pixels: Seq<u8>) -> Seq<u8>;

/// The JPEG file that the `image` crate's JPEG encoder, at its default
/// quality, writes for an RGB8 raster of the given size.
pub uninterp spec fn jpeg_encoding(width: u32, height: u32, pixels: Seq<u8>) -> Seq<u8>;

/// Relies on image's `PngEncoder::write_image` with `ExtendedColorType::Rgba8`,
/// which panics unless the buffer holds four bytes per pixel. Writing into a
/// `Vec`, the png crate refuses only a zero width or height.
#[verifier::external_body]
pub(crate) fn encode_png(width: u32, height: u32, pixels: &Vec<u8>) -> (r: Result<Vec<u8>, image::ImageError>)
    requires
        pixels@.len() == width * height * 4,
    ensures
        r is Ok ==> r->Ok_0@ == png_encoding(width, height, pixels@),
        width > 0 && height > 0 ==> r is Ok,
{
    let mut out: Vec<u8> = Vec::new();
    let encoder = image::codecs::png::PngEncoder::new(&mut out);
    let written = encoder.write_image(pixels, width, height, image::ExtendedColorType::Rgba8);
    written.map(move |_| out)
}

/// Relies on image's `JpegEncoder::write_image` with `ExtendedColorType::Rgb8`,
/// which panics unless the buffer holds three bytes per pixel. Writing into a
/// `Vec`, it refuses only a side of 0 or above 65535.
#[verifier::external_body]
pub(crate) fn encode_jpeg(width: u32, height: u32, pixels: &Vec<u8>) -> (r: Result<Vec<u8>, image::ImageError>)
    requires
        pixels@.len() == width * height * 3,
    ensures
        r is Ok ==> r->Ok_0@ == jpeg_encoding(width, height, pixels@),
        0 < width <= 65535 && 0 < height <= 65535 ==> r is Ok,
{
    let mut out: Vec<u8> = Vec::new();
    let encoder = image::codecs::jpeg::JpegEncoder::new(&mut out);
    let written = encoder.write_image(pixels, width, height, image::ExtendedColorType::Rgb8);
    written.map(move |_| out)
}

} // verus!
