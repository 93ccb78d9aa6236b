//! The grayscale images of the `image` crate, and what this library takes
//! on trust about them: how one is made from samples, and that its encoding
//! as a bitmap file depends on its shape and its samples alone.

use vstd::prelude::*;

verus! {

/// The error of the `image` crate. It is carried, never looked into.
#[verifier::external_type_specification]
#[verifier::external_body]
pub struct ExImageError(image::ImageError);

/// An `image::GrayImage`: a width, a height, and a buffer of samples, one
/// byte each, row by row from the top.
///
/// The verifier sees none of it. What it holds is named by `gray_samples`
/// and `gray_shape`.
#[verifier::external_body]
pub struct GrayBitmap {
    buffer: image::GrayImage,
}

/// The buffer of samples that an image owns.
pub uninterp spec fn gray_samples(bitmap: GrayBitmap) -> Seq<u8>;

/// The width and the height of an image.
pub uninterp spec fn gray_shape(bitmap: GrayBitmap) -> (u32, u32);

/// The bytes of the bitmap file that the `image` crate writes for a
/// grayscale image of the given width and height with the given samples, or
/// `None` where its encoder refuses the image.
pub uninterp spec fn bmp_encoding(width: u32, height: u32, samples: Seq<u8>) -> Option<Seq<u8>>;

/// `image::ImageBuffer::from_raw`, for one byte a sample.
///
/// Trusted: the buffer becomes an image exactly when it holds at least
/// `width * height` samples, and the image then has that width and height
/// and owns the buffer unchanged.
#[verifier::external_body]
pub(crate) fn gray_from_raw(width: u32, height: u32, samples: Vec<u8>) -> (r: Option<GrayBitmap>)
    ensures
        r.is_some() <==> width * height <= samples@.len(),
        r matches Some(bitmap) ==> gray_samples(bitmap) == samples@ && gray_shape(bitmap) == (
            width,
            height,
        ),
{
    match image::GrayImage::from_raw(width, height, samples) {
        Some(buffer) => Some(GrayBitmap { buffer }),
        None => None,
    }
}

/// `image::ImageBuffer::write_to` with `image::ImageFormat::Bmp`, into
/// memory.
///
/// Trusted: the encoder reads the first `width * height` samples of the
/// buffer, and whether it writes a file, and which bytes, depends on the
/// width, the height and those samples alone. Nothing is claimed of when it
/// writes one.
#[verifier::external_body]
pub(crate) fn write_bmp(bitmap: &GrayBitmap) -> (r: Result<Vec<u8>, image::ImageError>)
    ensures
        r matches Ok(bytes) ==> bmp_encoding(
            gray_shape(*bitmap).0,
            gray_shape(*bitmap).1,
            gray_samples(*bitmap).take(gray_shape(*bitmap).0 * gray_shape(*bitmap).1),
        ) == Some(bytes@),
        r is Err ==> bmp_encoding(
            gray_shape(*bitmap).0,
            gray_shape(*bitmap).1,
            gray_samples(*bitmap).take(gray_shape(*bitmap).0 * gray_shape(*bitmap).1),
        ).is_none(),
{
    let mut file = std::io::Cursor::new(Vec::new());
    match bitmap.buffer.write_to(&mut file, image::ImageFormat::Bmp) {
        Ok(()) => Ok(file.into_inner()),
        Err(error) => Err(error),
    }
}

} // verus!
