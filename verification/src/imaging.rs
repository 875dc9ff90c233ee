//! The boundary to the `image` crate, which decodes, resamples and encodes.
//!
//! Nothing in this file is proved. Each function below makes one call into
//! the crate and states what is relied on: that the result is a function of
//! the arguments, under a name that the contracts of the resizer use, and the
//! few facts about sizes that the crate documents.

use vstd::prelude::*;
use image::{DynamicImage, ImageError};
use crate::format::Codec;

verus! {

/// A decoded image of the `image` crate: a grid of pixels with its size and
/// the layout of a pixel. Its pixels are never looked at here: images are
/// handed from one call into the crate to the next, and the names below
/// stand for what the crate reads from an image or makes of it.
#[verifier::external_type_specification]
#[verifier::external_body]
pub struct ExDynamicImage(DynamicImage);

/// The error of the `image` crate. Only its presence is looked at.
#[verifier::external_type_specification]
#[verifier::external_body]
pub struct ExImageError(ImageError);

/// The kernel that a resize samples with, as `image::imageops::FilterType`
/// lists them.
#[derive(Debug, Clone, Copy, PartialEq, Eq, Structural)]
pub enum Resampling {
    Nearest,
    Triangle,
    CatmullRom,
    Gaussian,
    Lanczos3,
}

/// The image that `image::load_from_memory_with_format` decodes from `data`
/// read as `codec`; none where it reports an error.
pub uninterp spec fn decoded(data: Seq<u8>, codec: Codec) -> Option<DynamicImage>;

/// Width and height in pixels, as `GenericImageView::dimensions` gives them.
pub uninterp spec fn pixel_dimensions(image: DynamicImage) -> (u32, u32);

/// What `DynamicImage::resize` makes of `image` for the bounds `width` by
/// `height`.
pub uninterp spec fn fitted(
    image: DynamicImage,
    width: u32,
    height: u32,
    kernel: Resampling,
) -> DynamicImage;

/// What `DynamicImage::resize_exact` makes of `image` for the size `width` by
/// `height`.
pub uninterp spec fn stretched(
    image: DynamicImage,
    width: u32,
    height: u32,
    kernel: Resampling,
) -> DynamicImage;

/// The bytes that `DynamicImage::write_to` writes for `image` in the format
/// of `codec`; none where it reports an error.
pub uninterp spec fn encoded(image: DynamicImage, codec: Codec) -> Option<Seq<u8>>;

/// The bytes that a `JpegEncoder` of the given quality writes for `image`;
/// none where it reports an error.
pub uninterp spec fn jpeg_encoded(image: DynamicImage, quality: u8) -> Option<Seq<u8>>;

/// Whether the buffers of a resize to `width` by `height` can be allocated:
/// the resampling keeps one buffer as wide as the source and one as wide as
/// the result, each as high as the result, with up to 16 bytes to a pixel.
pub open spec fn buffers_fit(source_width: u32, width: u32, height: u32) -> bool {
    &&& 16 * source_width * height <= isize::MAX
    &&& 16 * width * height <= isize::MAX
}

/// Calls `image::load_from_memory_with_format`, which decodes `data` with the
/// decoder of the one format it is told. The contract only names the result.
#[verifier::external_body]
pub(crate) fn decode(data: &[u8], codec: Codec) -> (image: Result<DynamicImage, ImageError>)
    ensures
        match image {
            Ok(i) => decoded(data@, codec) == Some(i),
            Err(_) => decoded(data@, codec) is None,
        },
{
    let format = match codec {
        Codec::Jpeg => image::ImageFormat::Jpeg,
        Codec::Png => image::ImageFormat::Png,
        Codec::Gif => image::ImageFormat::Gif,
        Codec::Bmp => image::ImageFormat::Bmp,
        Codec::Tiff => image::ImageFormat::Tiff,
        Codec::WebP => image::ImageFormat::WebP,
    };
    image::load_from_memory_with_format(data, format)
}

/// Calls `GenericImageView::dimensions` on the image. The contract only
/// names the result.
#[verifier::external_body]
pub(crate) fn dimensions(image: &DynamicImage) -> (size: (u32, u32))
    ensures
        size == pixel_dimensions(*image),
{
    image::GenericImageView::dimensions(image)
}

/// Calls `DynamicImage::resize`, which keeps the aspect ratio and scales the
/// image to the largest size that fits within `width` by `height`, no side
/// below one pixel. It allocates its buffers with `ImageBuffer::new`, which
/// panics where a buffer is larger than a vector can be: such sizes are left
/// out, and so is a source without area, for which the crate computes no
/// meaningful size.
#[verifier::external_body]
pub(crate) fn resize_to_fit(
    image: &DynamicImage,
    width: u32,
    height: u32,
    kernel: Resampling,
) -> (resized: DynamicImage)
    requires
        pixel_dimensions(*image).0 > 0,
        pixel_dimensions(*image).1 > 0,
        width > 0,
        height > 0,
        buffers_fit(pixel_dimensions(*image).0, width, height),
    ensures
        resized == fitted(*image, width, height, kernel),
        1 <= pixel_dimensions(resized).0 <= width,
        1 <= pixel_dimensions(resized).1 <= height,
{
    let filter = match kernel {
        Resampling::Nearest => image::imageops::FilterType::Nearest,
        Resampling::Triangle => image::imageops::FilterType::Triangle,
        Resampling::CatmullRom => image::imageops::FilterType::CatmullRom,
        Resampling::Gaussian => image::imageops::FilterType::Gaussian,
        Resampling::Lanczos3 => image::imageops::FilterType::Lanczos3,
    };
    image.resize(width, height, filter)
}

/// Calls `DynamicImage::resize_exact`, whose result has exactly the size
/// asked for, whatever the source's aspect ratio. It allocates its buffers
/// with `ImageBuffer::new`, which panics where a buffer is larger than a
/// vector can be: such sizes are left out.
#[verifier::external_body]
pub(crate) fn resize_exact(
    image: &DynamicImage,
    width: u32,
    height: u32,
    kernel: Resampling,
) -> (resized: DynamicImage)
    requires
        buffers_fit(pixel_dimensions(*image).0, width, height),
    ensures
        resized == stretched(*image, width, height, kernel),
        pixel_dimensions(resized) == (width, height),
{
    let filter = match kernel {
        Resampling::Nearest => image::imageops::FilterType::Nearest,
        Resampling::Triangle => image::imageops::FilterType::Triangle,
        Resampling::CatmullRom => image::imageops::FilterType::CatmullRom,
        Resampling::Gaussian => image::imageops::FilterType::Gaussian,
        Resampling::Lanczos3 => image::imageops::FilterType::Lanczos3,
    };
    image.resize_exact(width, height, filter)
}

/// Calls `DynamicImage::write_to` with a buffer in memory, which encodes the
/// image with the crate's encoder for the format at its default settings.
/// The contract only names the bytes written.
#[verifier::external_body]
pub(crate) fn encode(image: &DynamicImage, codec: Codec) -> (bytes: Result<Vec<u8>, ImageError>)
    ensures
        match bytes {
            Ok(b) => encoded(*image, codec) == Some(b@),
            Err(_) => encoded(*image, codec) is None,
        },
{
    let format = match codec {
        Codec::Jpeg => image::ImageFormat::Jpeg,
        Codec::Png => image::ImageFormat::Png,
        Codec::Gif => image::ImageFormat::Gif,
        Codec::Bmp => image::ImageFormat::Bmp,
        Codec::Tiff => image::ImageFormat::Tiff,
        Codec::WebP => image::ImageFormat::WebP,
    };
    let mut bytes = Vec::new();
    let written = image.write_to(&mut std::io::Cursor::new(&mut bytes), format);
    match written {
        Ok(()) => Ok(bytes),
        Err(e) => Err(e),
    }
}

/// Calls `JpegEncoder::new_with_quality` and `JpegEncoder::encode_image` with
/// a buffer in memory. The contract only names the bytes written.
#[verifier::external_body]
pub(crate) fn encode_jpeg(image: &DynamicImage, quality: u8) -> (bytes: Result<
    Vec<u8>,
    ImageError,
>)
    ensures
        match bytes {
            Ok(b) => jpeg_encoded(*image, quality) == Some(b@),
            Err(_) => jpeg_encoded(*image, quality) is None,
        },
{
    let mut bytes = Vec::new();
    let written = image::codecs::jpeg::JpegEncoder::new_with_quality(&mut bytes, quality)
        .encode_image(image);
    match written {
        Ok(()) => Ok(bytes),
        Err(e) => Err(e),
    }
}

} // verus!
