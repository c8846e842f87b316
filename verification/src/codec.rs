//! The calls into the image codecs. Nothing in this file is proved: each function states
//! what the library takes on trust from the crate that it calls.

use vstd::prelude::*;
use crate::pixels::{sample_count, Rgb};

verus! {

/// The error of the `image` crate's decoders: an opaque value.
#[verifier::external_type_specification]
#[verifier::external_body]
pub struct ExImageError(image::ImageError);

/// A decoded image of the `image` crate, in whatever pixel layout its file had: an
/// opaque value.
#[verifier::external_type_specification]
#[verifier::external_body]
pub struct ExDynamicImage(image::DynamicImage);

/// The error of the `ravif` encoder: an opaque value.
#[verifier::external_type_specification]
#[verifier::external_body]
pub struct ExEncodeError(ravif::Error);

/// The resampling filters of the `image` crate.
#[derive(Debug, Clone, Copy, PartialEq, Eq, Structural)]
pub enum ResampleFilter {
    Nearest,
    Triangle,
    CatmullRom,
    Gaussian,
    Lanczos3,
}

/// How the encoder stores colour inside the file.
#[derive(Debug, Clone, Copy, PartialEq, Eq, Structural)]
pub enum ColorModel {
    /// Luma and two chroma channels.
    YCbCr,
    /// Red, green and blue, untransformed.
    Rgb,
}

/// The encoder's settings.
#[derive(Debug, Clone, Copy, PartialEq, Eq, Structural)]
pub struct EncoderSettings {
    /// Quality, from 1 (worst) to 100 (best).
    pub quality: u8,
    /// Speed, from 1 (slowest, smallest files) to 10 (fastest).
    pub speed: u8,
    pub color_model: ColorModel,
}

impl EncoderSettings {
    /// Whether the encoder accepts these settings.
    pub open spec fn valid(self) -> bool {
        1 <= self.quality <= 100 && 1 <= self.speed <= 10
    }
}

/// Whether the buffers that resampling to `width` by `height` allocates can be addressed:
/// one of `source_width` by `height` pixels at sixteen bytes each, and the result at four.
pub open spec fn resample_fits(source_width: nat, width: u32, height: u32) -> bool {
    &&& 16 * (source_width * height as nat) <= isize::MAX
    &&& 4 * (width as nat * height as nat) <= isize::MAX
}

/// `image::load_from_memory`: guesses the format of `raw` and decodes it. Nothing is
/// claimed of the outcome: which bytes decode, and to what, is the decoders' business.
#[verifier::external_body]
pub(crate) fn load_image(raw: &[u8]) -> (r: Result<image::DynamicImage, image::ImageError>) {
    image::load_from_memory(raw)
}

/// What `image::DynamicImage::to_rgba8` makes of `image`: the width, the height and the
/// samples of the image as eight-bit RGBA. The conversion reads nothing but the image:
/// it copies an image that is RGBA already, and casts any other sample by sample.
pub uninterp spec fn rgba8(image: image::DynamicImage) -> (u32, u32, Seq<u8>);

/// `image::DynamicImage::to_rgba8`, handed out as width, height and samples. Claimed:
/// the three are `rgba8` of the image, and there are at least the samples of width by
/// height pixels, which `ImageBuffer` checks of every container that it is built on.
/// Nothing is claimed of what the dimensions or the samples are.
#[verifier::external_body]
pub(crate) fn rgba8_of(image: &image::DynamicImage) -> (r: (u32, u32, Vec<u8>))
    ensures
        (r.0, r.1, r.2@) == rgba8(*image),
        r.2@.len() >= sample_count(r.0, r.1),
{
    let rgba = image.to_rgba8();
    (rgba.width(), rgba.height(), rgba.into_raw())
}

/// `image::imageops::resize` on eight-bit RGBA samples. Claimed: the result holds the
/// samples of exactly `width` by `height` pixels. Nothing is claimed of their values.
/// The call allocates with `ImageBuffer::new`, which panics on a buffer that cannot be
/// addressed; `requires` leaves those sizes out.
#[verifier::external_body]
pub(crate) fn resample(
    samples: &Vec<u8>,
    source_width: u32,
    source_height: u32,
    width: u32,
    height: u32,
    filter: ResampleFilter,
) -> (r: Vec<u8>)
    requires
        samples@.len() == sample_count(source_width, source_height),
        resample_fits(source_width as nat, width, height),
    ensures
        r@.len() == sample_count(width, height),
{
    let source = image::ImageBuffer::<image::Rgba<u8>, &[u8]>::from_raw(
        source_width,
        source_height,
        samples.as_slice(),
    ).expect("the samples fill the image");
    let filter = match filter {
        ResampleFilter::Nearest => image::imageops::FilterType::Nearest,
        ResampleFilter::Triangle => image::imageops::FilterType::Triangle,
        ResampleFilter::CatmullRom => image::imageops::FilterType::CatmullRom,
        ResampleFilter::Gaussian => image::imageops::FilterType::Gaussian,
        ResampleFilter::Lanczos3 => image::imageops::FilterType::Lanczos3,
    };
    image::imageops::resize(&source, width, height, filter).into_raw()
}

/// `ravif::Encoder::encode_rgb` with the given settings, on `width` by `height` pixels.
/// Nothing is claimed of the outcome. The builder panics on a quality or speed out of
/// range, and `imgref::Img` on a width of zero or on too few pixels; `requires` leaves
/// those out.
#[verifier::external_body]
pub(crate) fn encode_rgb(
    pixels: &Vec<Rgb>,
    width: u32,
    height: u32,
    settings: EncoderSettings,
) -> (r: Result<Vec<u8>, ravif::Error>)
    requires
        settings.valid(),
        width >= 1,
        height >= 1,
        pixels@.len() == width as nat * height as nat,
{
    let pixels: Vec<rgb::RGB8> = pixels.iter().map(|p| rgb::RGB8::new(p.r, p.g, p.b)).collect();
    let model = match settings.color_model {
        ColorModel::YCbCr => ravif::ColorModel::YCbCr,
        ColorModel::Rgb => ravif::ColorModel::RGB,
    };
    let encoder = ravif::Encoder::new()
        .with_quality(settings.quality.into())
        .with_speed(settings.speed)
        .with_internal_color_model(model);
    let image = ravif::Img::new(pixels.as_slice(), width as usize, height as usize);
    Ok(encoder.encode_rgb(image)?.avif_file)
}

} // verus!
