//! Decoded images: eight-bit samples in red, green, blue, alpha order.

use vstd::prelude::*;

verus! {

/// The colour of one pixel, without its opacity.
#[derive(Debug, Clone, Copy, PartialEq, Eq, Structural)]
pub struct Rgb {
    pub r: u8,
    pub g: u8,
    pub b: u8,
}

/// The mathematical content of a [`PixelBuffer`]: its dimensions and its samples, four to
/// the pixel, row by row from the top left.
pub struct PixelGrid {
    pub width: nat,
    pub height: nat,
    pub samples: Seq<u8>,
}

impl PixelGrid {
    /// The number of pixels.
    pub open spec fn pixel_count(self) -> nat {
        self.width * self.height
    }

    /// Whether the samples are exactly those of `width` by `height` pixels.
    pub open spec fn well_formed(self) -> bool {
        &&& self.width <= u32::MAX
        &&& self.height <= u32::MAX
        &&& self.samples.len() == 4 * self.pixel_count()
    }

    /// The colour of pixel `i`, its alpha sample left out.
    pub open spec fn color(self, i: int) -> Rgb {
        Rgb { r: self.samples[4 * i], g: self.samples[4 * i + 1], b: self.samples[4 * i + 2] }
    }

    /// The colours of all pixels in order.
    pub open spec fn colors(self) -> Seq<Rgb> {
        Seq::new(self.pixel_count(), |i: int| self.color(i))
    }
}

/// The number of samples in an image of `width` by `height` pixels.
pub open spec fn sample_count(width: u32, height: u32) -> nat {
    4 * (width as nat * height as nat)
}

/// The image of `width` by `height` pixels that `samples` starts with, if `samples` is
/// long enough to hold one.
pub open spec fn grid_from_raw(width: u32, height: u32, samples: Seq<u8>) -> Option<PixelGrid> {
    if samples.len() >= sample_count(width, height) {
        Some(
            PixelGrid {
                width: width as nat,
                height: height as nat,
                samples: samples.take(sample_count(width, height) as int),
            },
        )
    } else {
        None
    }
}

/// The content of an optional buffer.
pub open spec fn grid_of(buffer: Option<PixelBuffer>) -> Option<PixelGrid> {
    match buffer {
        Some(b) => Some(b@),
        None => None,
    }
}

/// An image in memory. Every value of this type is well formed: it holds four samples
/// for each of its `width` times `height` pixels, and no others.
pub struct PixelBuffer {
    width: u32,
    height: u32,
    samples: Vec<u8>,
}

impl View for PixelBuffer {
    type V = PixelGrid;

    closed spec fn view(&self) -> PixelGrid {
        PixelGrid { width: self.width as nat, height: self.height as nat, samples: self.samples@ }
    }
}

impl PixelBuffer {
    /// What holds of every buffer: its samples are exactly those of its pixels.
    #[verifier::type_invariant]
    pub open spec fn inv(&self) -> bool {
        self@.well_formed()
    }

    /// The image of `width` by `height` pixels that `samples` starts with; samples beyond
    /// the image are dropped.
    pub(crate) fn from_samples(width: u32, height: u32, samples: Vec<u8>) -> (buffer: PixelBuffer)
        requires
            samples@.len() >= sample_count(width, height),
        ensures
            Some(buffer@) == grid_from_raw(width, height, samples@),
    {
        let mut samples = samples;
        assert(width as nat * height as nat <= 0xFFFF_FFFF * 0xFFFF_FFFF) by (nonlinear_arith)
            requires
                width <= 0xFFFF_FFFF,
                height <= 0xFFFF_FFFF,
        ;
        let count: u128 = 4 * (width as u128 * height as u128);
        samples.truncate(count as usize);
        PixelBuffer { width, height, samples }
    }

    /// Takes the image of `width` by `height` pixels that `samples` starts with. There is
    /// none if `samples` is too short for it; samples beyond the image are dropped.
    pub fn from_raw(width: u32, height: u32, samples: Vec<u8>) -> (r: Option<PixelBuffer>)
        ensures
            grid_of(r) == grid_from_raw(width, height, samples@),
    {
        assert(width as nat * height as nat <= 0xFFFF_FFFF * 0xFFFF_FFFF) by (nonlinear_arith)
            requires
                width <= 0xFFFF_FFFF,
                height <= 0xFFFF_FFFF,
        ;
        let count: u128 = 4 * (width as u128 * height as u128);
        if samples.len() as u128 >= count {
            Some(PixelBuffer::from_samples(width, height, samples))
        } else {
            None
        }
    }

    /// The number of pixels in a row.
    pub fn width(&self) -> (w: u32)
        ensures
            w == self@.width,
    {
        self.width
    }

    /// The number of rows.
    pub fn height(&self) -> (h: u32)
        ensures
            h == self@.height,
    {
        self.height
    }

    /// The samples, four to the pixel.
    pub fn samples(&self) -> (s: &Vec<u8>)
        ensures
            s@ == self@.samples,
    {
        &self.samples
    }

    /// The colours of the pixels in order: every fourth sample, the alpha, is left out.
    pub fn to_rgb(&self) -> (pixels: Vec<Rgb>)
        ensures
            pixels@ == self@.colors(),
    {
        proof {
            use_type_invariant(self);
        }
        let count = self.samples.len() / 4;
        let mut pixels: Vec<Rgb> = Vec::with_capacity(count);
        let mut i: usize = 0;
        while i < count
            invariant
                i <= count,
                self.samples@.len() == 4 * count,
                self.samples@.len() <= usize::MAX,
                pixels@ == Seq::new(i as nat, |k: int| self@.color(k)),
            decreases count - i,
        {
            let pixel = Rgb {
                r: self.samples[4 * i],
                g: self.samples[4 * i + 1],
                b: self.samples[4 * i + 2],
            };
            pixels.push(pixel);
            i = i + 1;
            assert(pixels@ =~= Seq::new(i as nat, |k: int| self@.color(k)));
        }
        assert(pixels@ =~= self@.colors());
        pixels
    }
}

} // verus!
