//! The codec boundary: decoding encoded image bytes into an RGB pixel
//! buffer and re-encoding a buffer as PNG bytes, through the `image` crate.
//! The buffers themselves are opaque here; their contents and the codec's
//! results are named, and both are pure functions of their inputs, so the
//! same bytes always stand for the same pixels.

use vstd::prelude::*;

verus! {

#[verifier::external_type_specification]
#[verifier::external_body]
pub struct ExDynamicImage(image::DynamicImage);

#[verifier::external_type_specification]
#[verifier::external_body]
pub struct ExImageError(image::ImageError);

/// An RGB pixel buffer, held opaquely: the strategy that transforms the
/// pixels runs outside the engine, so the engine only carries the buffer
/// between decoding and encoding.  The field is open so that the strategy's
/// performer can work on it.
#[verifier::external_body]
pub struct PixelBuffer {
    pub img: image::RgbImage,
}

/// What decoding a byte buffer yields: the contents of the decoded image,
/// or nothing when the bytes are not a readable image.
pub uninterp spec fn loaded(bytes: Seq<u8>) -> Option<Seq<u8>>;

/// The contents of a decoded image, dimensions included.
pub uninterp spec fn dyn_view(img: image::DynamicImage) -> Seq<u8>;

/// The contents of an RGB pixel buffer, dimensions included.
pub uninterp spec fn rgb_view(b: PixelBuffer) -> Seq<u8>;

/// The RGB pixel buffer a decoded image converts to.
pub uninterp spec fn rgb_of_dyn(contents: Seq<u8>) -> Seq<u8>;

/// What encoding a pixel buffer as PNG yields, or nothing when the encoder
/// reports an error.
pub uninterp spec fn png_encoded(contents: Seq<u8>) -> Option<Seq<u8>>;

/// Relies on image::ImageReader: it guesses the format from the bytes and
/// decodes them, or reports an error; the outcome is a pure function of the
/// bytes alone.  The reader's default decoding limits are lifted so that
/// every image the engine itself encodes, whatever its size, decodes back.
#[verifier::external_body]
pub(crate) fn load_from_memory(bytes: &Vec<u8>) -> (r: Result<
    image::DynamicImage,
    image::ImageError,
>)
    ensures
        match r {
            Ok(img) => loaded(bytes@) == Some(dyn_view(img)),
            Err(_) => loaded(bytes@) is None,
        },
{
    let reader = image::ImageReader::new(std::io::Cursor::new(bytes.as_slice()));
    match reader.with_guessed_format() {
        Ok(mut guessed) => {
            guessed.no_limits();
            guessed.decode()
        },
        Err(e) => Err(image::ImageError::IoError(e)),
    }
}

/// Relies on image::DynamicImage::to_rgb8: the RGB copy is a pure function
/// of the decoded image's contents.
#[verifier::external_body]
pub(crate) fn to_rgb(img: &image::DynamicImage) -> (r: PixelBuffer)
    ensures
        rgb_view(r) == rgb_of_dyn(dyn_view(*img)),
{
    PixelBuffer { img: img.to_rgb8() }
}

/// Relies on image::DynamicImage::write_to with PNG output: the encoded
/// bytes are a pure function of the pixel contents, and an error leaves no
/// usable output.  PNG is lossless for an eight-bit RGB buffer, so the
/// bytes it writes decode back (image::load_from_memory, then to_rgb8) to
/// exactly the contents that were encoded.
#[verifier::external_body]
pub(crate) fn encode_png(b: PixelBuffer) -> (r: Result<Vec<u8>, image::ImageError>)
    ensures
        match r {
            Ok(v) => png_encoded(rgb_view(b)) == Some(v@) && loaded(v@) is Some && rgb_of_dyn(
                loaded(v@)->Some_0,
            ) == rgb_view(b),
            Err(_) => png_encoded(rgb_view(b)) is None,
        },
{
    let dyn_image = image::DynamicImage::ImageRgb8(b.img);
    let mut cursor = std::io::Cursor::new(Vec::new());
    match dyn_image.write_to(&mut cursor, image::ImageFormat::Png) {
        Ok(()) => Ok(cursor.into_inner()),
        Err(e) => Err(e),
    }
}

} // verus!
