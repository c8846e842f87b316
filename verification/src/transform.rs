//! The transformer: raw bytes to an encoded image, by decoding, normalising, resampling
//! and encoding.

use vstd::prelude::*;
use crate::codec::{
    encode_rgb, load_image, resample, resample_fits, rgba8, rgba8_of, ColorModel,
    EncoderSettings, ResampleFilter,
};
use crate::pixels::{sample_count, PixelBuffer, PixelGrid};

verus! {

/// Why a transformation failed.
#[derive(Debug, Clone, Copy, PartialEq, Eq, Structural)]
pub enum TransformError {
    /// The bytes are no image that the decoders recognise.
    DecodeFailed,
    /// The encoder gave up, or the dimensions are none that it could be given.
    EncodeFailed,
}

/// An AVIF file, with the pixel dimensions of the picture that was handed to the encoder.
#[derive(Debug, Clone, PartialEq, Eq)]
pub struct EncodedImage {
    pub bytes: Vec<u8>,
    pub width: u32,
    pub height: u32,
}

/// The media type of every encoded image.
pub fn content_type() -> (r: &'static str)
    ensures
        r@ == "image/avif"@,
{
    "image/avif"
}

/// The settings that every image is encoded with: quality 80 of 100, the encoder's
/// fastest speed, and luma and chroma inside the file.
pub open spec fn standard_settings() -> EncoderSettings {
    EncoderSettings { quality: 80, speed: 10, color_model: ColorModel::YCbCr }
}

/// Whether target dimensions ask for resampling: only when both are given.
pub open spec fn resizes(width: u32, height: u32) -> bool {
    width > 0 && height > 0
}

/// The dimensions of the picture that is encoded for a source of `source_width` by
/// `source_height` pixels: the target dimensions if both are given, else the source's own.
pub open spec fn output_dimensions(
    source_width: nat,
    source_height: nat,
    width: u32,
    height: u32,
) -> (nat, nat) {
    if resizes(width, height) {
        (width as nat, height as nat)
    } else {
        (source_width, source_height)
    }
}

impl EncoderSettings {
    /// The settings that every image is encoded with.
    pub fn standard() -> (settings: EncoderSettings)
        ensures
            settings == standard_settings(),
            settings.valid(),
    {
        EncoderSettings { quality: 80, speed: 10, color_model: ColorModel::YCbCr }
    }
}

fn fits(source_width: u32, width: u32, height: u32) -> (b: bool)
    ensures
        b == resample_fits(source_width as nat, width, height),
{
    assert(source_width as nat * height as nat <= 0xFFFF_FFFF * 0xFFFF_FFFF) by (nonlinear_arith)
        requires
            source_width <= 0xFFFF_FFFF,
            height <= 0xFFFF_FFFF,
    ;
    assert(width as nat * height as nat <= 0xFFFF_FFFF * 0xFFFF_FFFF) by (nonlinear_arith)
        requires
            width <= 0xFFFF_FFFF,
            height <= 0xFFFF_FFFF,
    ;
    let limit: u128 = isize::MAX as u128;
    let scratch: u128 = 16 * (source_width as u128 * height as u128);
    let result: u128 = 4 * (width as u128 * height as u128);
    scratch <= limit && result <= limit
}

/// The picture that a decoded image is normalised to: its eight-bit RGBA form, with
/// the samples of its width by height pixels and none beyond them.
pub open spec fn normalized(image: image::DynamicImage) -> PixelGrid {
    PixelGrid {
        width: rgba8(image).0 as nat,
        height: rgba8(image).1 as nat,
        samples: rgba8(image).2.take(sample_count(rgba8(image).0, rgba8(image).1) as int),
    }
}

/// Whether `r` is what the decoder's outcome is normalised to: the picture of a decoded
/// image, `DecodeFailed` for a decoder's error.
pub open spec fn normalizes(
    loaded: Result<image::DynamicImage, image::ImageError>,
    r: Result<PixelBuffer, TransformError>,
) -> bool {
    match loaded {
        Ok(image) => {
            &&& r is Ok
            &&& r->Ok_0@ == normalized(image)
            &&& normalized(image).well_formed()
        },
        Err(_) => r == Err::<PixelBuffer, TransformError>(TransformError::DecodeFailed),
    }
}

/// Normalises what the decoder made of the source: a decoded image becomes a picture
/// of eight-bit RGBA samples, a decoder's error becomes `DecodeFailed`.
pub fn normalize(loaded: Result<image::DynamicImage, image::ImageError>) -> (r: Result<
    PixelBuffer,
    TransformError,
>)
    ensures
        normalizes(loaded, r),
{
    match loaded {
        Ok(image) => {
            let (width, height, samples) = rgba8_of(&image);
            let buffer = PixelBuffer::from_samples(width, height, samples);
            proof {
                use_type_invariant(&buffer);
            }
            Ok(buffer)
        },
        Err(_) => Err(TransformError::DecodeFailed),
    }
}

/// Decodes `raw` and normalises the image to eight-bit RGBA. Which bytes decode is for
/// the decoders to say; every failure is reported as `DecodeFailed`.
pub fn decode(raw: &[u8]) -> (r: Result<PixelBuffer, TransformError>)
    ensures
        r matches Err(e) ==> e == TransformError::DecodeFailed,
{
    normalize(load_image(raw))
}

/// Resamples `buffer` to exactly `width` by `height` pixels if both are given, with the
/// Lanczos filter of three lobes, and hands it back untouched otherwise. Target
/// dimensions whose buffers cannot be addressed on this machine are refused as
/// `EncodeFailed`.
pub fn resize(buffer: PixelBuffer, width: u32, height: u32) -> (r: Result<
    PixelBuffer,
    TransformError,
>)
    ensures
        !resizes(width, height) ==> r == Ok::<PixelBuffer, TransformError>(buffer),
        resizes(width, height) && !resample_fits(buffer@.width, width, height) ==> r == Err::<
            PixelBuffer,
            TransformError,
        >(TransformError::EncodeFailed),
        resizes(width, height) && resample_fits(buffer@.width, width, height) ==> resized(
            r,
            width,
            height,
        ),
{
    if width == 0 || height == 0 {
        return Ok(buffer);
    }
    if !fits(buffer.width(), width, height) {
        return Err(TransformError::EncodeFailed);
    }
    proof {
        use_type_invariant(&buffer);
    }
    let samples = resample(
        buffer.samples(),
        buffer.width(),
        buffer.height(),
        width,
        height,
        ResampleFilter::Lanczos3,
    );
    Ok(PixelBuffer::from_samples(width, height, samples))
}

/// Whether `r` is a well-formed picture of exactly `width` by `height` pixels.
pub open spec fn resized(r: Result<PixelBuffer, TransformError>, width: u32, height: u32) -> bool {
    match r {
        Ok(buffer) => buffer@.width == width && buffer@.height == height && buffer@.well_formed(),
        Err(_) => false,
    }
}

/// Whether `r` is a file made from a picture of `width` by `height` pixels.
pub open spec fn encodes(r: Result<EncodedImage, TransformError>, width: nat, height: nat) -> bool {
    match r {
        Ok(image) => image.width == width && image.height == height,
        Err(e) => e == TransformError::EncodeFailed,
    }
}

/// What the encoder's outcome for a picture of `width` by `height` pixels amounts to:
/// its file with those dimensions, or `EncodeFailed`.
pub open spec fn encoded_as(outcome: Result<Vec<u8>, ravif::Error>, width: u32, height: u32) -> Result<
    EncodedImage,
    TransformError,
> {
    match outcome {
        Ok(bytes) => Ok(EncodedImage { bytes, width, height }),
        Err(_) => Err(TransformError::EncodeFailed),
    }
}

/// Turns the encoder's outcome for a picture of `width` by `height` pixels into the
/// transformer's.
pub fn encoded(outcome: Result<Vec<u8>, ravif::Error>, width: u32, height: u32) -> (r: Result<
    EncodedImage,
    TransformError,
>)
    ensures
        r == encoded_as(outcome, width, height),
{
    match outcome {
        Ok(bytes) => Ok(EncodedImage { bytes, width, height }),
        Err(_) => Err(TransformError::EncodeFailed),
    }
}

/// Encodes the colours of `buffer` with the standard settings; the alpha samples are left
/// out. A picture without pixels is refused. Whether the encoder succeeds on the others
/// is for the encoder to say.
pub fn convert_to_avif(buffer: &PixelBuffer) -> (r: Result<EncodedImage, TransformError>)
    ensures
        encodes(r, buffer@.width, buffer@.height),
        buffer@.width == 0 || buffer@.height == 0 ==> r is Err,
{
    let width = buffer.width();
    let height = buffer.height();
    if width == 0 || height == 0 {
        return Err(TransformError::EncodeFailed);
    }
    let pixels = buffer.to_rgb();
    encoded(encode_rgb(&pixels, width, height, EncoderSettings::standard()), width, height)
}

/// Resamples a decoded picture as `width` and `height` ask, and encodes it.
pub fn resize_and_convert(buffer: PixelBuffer, width: u32, height: u32) -> (r: Result<
    EncodedImage,
    TransformError,
>)
    ensures
        encodes(
            r,
            output_dimensions(buffer@.width, buffer@.height, width, height).0,
            output_dimensions(buffer@.width, buffer@.height, width, height).1,
        ),
        resizes(width, height) && !resample_fits(buffer@.width, width, height) ==> r is Err,
        !resizes(width, height) && (buffer@.width == 0 || buffer@.height == 0) ==> r is Err,
{
    match resize(buffer, width, height) {
        Ok(picture) => convert_to_avif(&picture),
        Err(e) => Err(e),
    }
}

/// The whole transformation of `raw` for target dimensions `width` and `height`.
pub fn transform(raw: &[u8], width: u32, height: u32) -> (r: Result<EncodedImage, TransformError>)
    ensures
        r matches Ok(image) ==> image.width > 0 && image.height > 0 && (resizes(width, height)
            ==> image.width == width && image.height == height),
        resizes(width, height) && 4 * (width as nat * height as nat) > isize::MAX ==> r is Err,
{
    transform_loaded(load_image(raw), width, height)
}

/// Whether `r` is what the transformation comes to once the decoder has spoken. If the
/// decoder gave an error, so does the transformation, and the error is `DecodeFailed`.
/// If it gave an image, the image is normalised, resampled as `width` and `height` ask,
/// and encoded. Then the only failure is `EncodeFailed`, which is owed where there is
/// no pixel to encode or the target cannot be addressed; and a file is that of a
/// picture of exactly `width` by `height` pixels if both are given, else of the decoded
/// image's own size.
pub open spec fn transforms(
    loaded: Result<image::DynamicImage, image::ImageError>,
    width: u32,
    height: u32,
    r: Result<EncodedImage, TransformError>,
) -> bool {
    match loaded {
        Ok(image) => {
            let source = normalized(image);
            let size = output_dimensions(source.width, source.height, width, height);
            &&& encodes(r, size.0, size.1)
            &&& size.0 == 0 || size.1 == 0 ==> r is Err
            &&& resizes(width, height) && !resample_fits(source.width, width, height) ==> r is Err
        },
        Err(_) => r == Err::<EncodedImage, TransformError>(TransformError::DecodeFailed),
    }
}

/// The transformation of an image that the decoder has been asked for: every step after
/// the decoder's, for target dimensions `width` and `height`.
pub fn transform_loaded(
    loaded: Result<image::DynamicImage, image::ImageError>,
    width: u32,
    height: u32,
) -> (r: Result<EncodedImage, TransformError>)
    ensures
        transforms(loaded, width, height, r),
{
    match normalize(loaded) {
        Ok(buffer) => resize_and_convert(buffer, width, height),
        Err(e) => Err(e),
    }
}

} // verus!
