//! The mathematical model of a decoded image: its pixel layout, its
//! dimensions and its samples, and what each exact transform does to them.

use vstd::prelude::*;
use crate::floats::float_takes_delta;

verus! {

/// The samples that make up one pixel, and the type of each sample.
#[derive(Clone, Copy, Debug)]
pub enum PixelLayout {
    /// One 8-bit luminance sample.
    Luma8,
    /// 8-bit luminance and alpha.
    LumaAlpha8,
    /// 8-bit red, green and blue.
    Rgb8,
    /// 8-bit red, green, blue and alpha.
    Rgba8,
    /// One 16-bit luminance sample.
    Luma16,
    /// 16-bit luminance and alpha.
    LumaAlpha16,
    /// 16-bit red, green and blue.
    Rgb16,
    /// 16-bit red, green, blue and alpha.
    Rgba16,
    /// Red, green and blue as 32-bit floating-point samples.
    RgbFloat,
    /// Red, green, blue and alpha as 32-bit floating-point samples.
    RgbaFloat,
}

impl PixelLayout {
    /// Number of samples per pixel.
    pub open spec fn channels(self) -> nat {
        match self {
            PixelLayout::Luma8 | PixelLayout::Luma16 => 1,
            PixelLayout::LumaAlpha8 | PixelLayout::LumaAlpha16 => 2,
            PixelLayout::Rgb8 | PixelLayout::Rgb16 | PixelLayout::RgbFloat => 3,
            PixelLayout::Rgba8 | PixelLayout::Rgba16 | PixelLayout::RgbaFloat => 4,
        }
    }

    /// Whether the last sample of each pixel is an alpha value.
    pub open spec fn has_alpha(self) -> bool {
        self.channels() == 2 || self.channels() == 4
    }

    /// Whether a pixel carries red, green and blue rather than luminance.
    pub open spec fn has_color(self) -> bool {
        self.channels() >= 3
    }

    /// Whether the samples are floating-point numbers rather than integers.
    pub open spec fn is_float(self) -> bool {
        self == PixelLayout::RgbFloat || self == PixelLayout::RgbaFloat
    }

    /// The largest value of an integer sample: 255 for 8 bits, 65535 for 16.
    /// Meaningless for a float layout.
    pub open spec fn max_sample(self) -> int {
        match self {
            PixelLayout::Luma8 | PixelLayout::LumaAlpha8 | PixelLayout::Rgb8 | PixelLayout::Rgba8 => 255,
            _ => 65535,
        }
    }

    /// The number of bytes that one sample takes: 1, 2 or 4.
    pub open spec fn sample_bytes(self) -> nat {
        if self.is_float() {
            4
        } else if self.max_sample() == 255 {
            1
        } else {
            2
        }
    }

    /// The largest number that can stand for a sample: the largest sample
    /// value of an integer layout, the largest 32-bit pattern of a float one.
    pub open spec fn sample_ceiling(self) -> int {
        if self.is_float() {
            0xffff_ffff
        } else {
            self.max_sample()
        }
    }

    /// Number of samples per pixel.
    pub fn channel_count(&self) -> (n: u8)
        ensures
            n == self.channels(),
            1 <= n <= 4,
    {
        match self {
            PixelLayout::Luma8 | PixelLayout::Luma16 => 1,
            PixelLayout::LumaAlpha8 | PixelLayout::LumaAlpha16 => 2,
            PixelLayout::Rgb8 | PixelLayout::Rgb16 | PixelLayout::RgbFloat => 3,
            PixelLayout::Rgba8 | PixelLayout::Rgba16 | PixelLayout::RgbaFloat => 4,
        }
    }

    /// Number of bytes per sample.
    pub fn bytes_per_sample(&self) -> (n: u8)
        ensures
            n == self.sample_bytes(),
            1 <= n <= 4,
    {
        match self {
            PixelLayout::Luma8 | PixelLayout::LumaAlpha8 | PixelLayout::Rgb8 | PixelLayout::Rgba8 => 1,
            PixelLayout::Luma16 | PixelLayout::LumaAlpha16 | PixelLayout::Rgb16 | PixelLayout::Rgba16 => 2,
            PixelLayout::RgbFloat | PixelLayout::RgbaFloat => 4,
        }
    }

    /// Whether the samples are floating-point numbers.
    pub fn stores_floats(&self) -> (b: bool)
        ensures
            b == self.is_float(),
    {
        match self {
            PixelLayout::RgbFloat | PixelLayout::RgbaFloat => true,
            _ => false,
        }
    }

    /// Whether the last sample of each pixel is an alpha value.
    pub fn carries_alpha(&self) -> (b: bool)
        ensures
            b == self.has_alpha(),
    {
        match self {
            PixelLayout::LumaAlpha8
            | PixelLayout::Rgba8
            | PixelLayout::LumaAlpha16
            | PixelLayout::Rgba16
            | PixelLayout::RgbaFloat => true,
            _ => false,
        }
    }

    /// Whether sample number `k` of an image in this layout is an alpha value.
    pub open spec fn is_alpha_index(self, k: int) -> bool {
        self.has_alpha() && k % (self.channels() as int) == self.channels() - 1
    }

    /// The layout that desaturating an image of this layout gives: integer
    /// colour becomes luminance of the same depth, alpha is kept; luminance
    /// and float layouts stay as they are.
    pub open spec fn desaturated(self) -> PixelLayout {
        match self {
            PixelLayout::Rgb8 => PixelLayout::Luma8,
            PixelLayout::Rgba8 => PixelLayout::LumaAlpha8,
            PixelLayout::Rgb16 => PixelLayout::Luma16,
            PixelLayout::Rgba16 => PixelLayout::LumaAlpha16,
            other => other,
        }
    }
}

/// A decoded image as a value: samples in row-major order, pixel by pixel,
/// the channels of one pixel next to each other. An integer sample stands
/// for itself; a floating-point sample is held as its 32-bit pattern.
pub struct Raster {
    pub layout: PixelLayout,
    pub width: nat,
    pub height: nat,
    pub samples: Seq<int>,
}

/// Largest brightness delta that can still change an integer sample.
pub const MAX_DELTA: i32 = 65535;

/// Luminance of one pixel from its red, green and blue samples.
pub open spec fn luminance(r: int, g: int, b: int) -> int {
    (2126 * r + 7152 * g + 722 * b) / 10000
}

/// `v` limited to the range from `lo` to `hi`.
pub open spec fn clamp_int(v: int, lo: int, hi: int) -> int {
    if v < lo {
        lo
    } else if v > hi {
        hi
    } else {
        v
    }
}

impl Raster {
    /// Whether the image holds no pixel at all.
    pub open spec fn is_empty(self) -> bool {
        self.width == 0 || self.height == 0
    }

    /// What holds of every image: it has one sample per channel of each
    /// pixel, and each sample lies in the range of its layout.
    pub open spec fn well_formed(self) -> bool {
        &&& self.samples.len() == self.width * self.height * self.layout.channels()
        &&& forall|k: int|
            0 <= k < self.samples.len() ==> 0 <= #[trigger] self.samples[k] <= self.layout.sample_ceiling()
    }

    /// Well formed, and of the given layout.
    pub open spec fn laid_out_as(self, layout: PixelLayout) -> bool {
        self.layout == layout && self.well_formed()
    }

    /// The number of bytes that the samples take, one next to the other.
    pub open spec fn byte_len(self) -> nat {
        self.width * self.height * self.layout.channels() * self.layout.sample_bytes()
    }

    /// Whether `post` has as many samples as this image, and the same alpha
    /// sample in every pixel.
    pub open spec fn alpha_kept(self, post: Raster) -> bool {
        &&& post.samples.len() == self.samples.len()
        &&& forall|k: int|
            0 <= k < self.samples.len() && self.layout.is_alpha_index(k) ==> #[trigger] post.samples[k]
                == self.samples[k]
    }

    /// Whether pixel `p` of this colour image is grey: red, green and blue
    /// are one and the same sample.
    pub open spec fn grey_at(self, p: int) -> bool {
        let c = self.layout.channels() as int;
        self.samples[p * c] == self.samples[p * c + 1] && self.samples[p * c + 1] == self.samples[p * c + 2]
    }

    /// Whether every pixel of this colour image is grey.
    pub open spec fn all_grey(self) -> bool {
        forall|p: int| 0 <= p < self.width * self.height ==> #[trigger] self.grey_at(p)
    }

    /// Whether `delta` can be added to every colour sample of this float
    /// image as 32-bit integers.
    pub open spec fn takes_delta(self, delta: int) -> bool {
        forall|k: int|
            0 <= k < self.samples.len() && !self.layout.is_alpha_index(k) ==> float_takes_delta(
                #[trigger] self.samples[k] as u32,
                delta,
            )
    }

    /// Same layout and same dimensions.
    pub open spec fn same_shape(self, other: Raster) -> bool {
        &&& self.layout == other.layout
        &&& self.width == other.width
        &&& self.height == other.height
    }

    /// Whether the rectangle lies inside the image.
    pub open spec fn contains_rect(self, x: int, y: int, w: int, h: int) -> bool {
        &&& 0 <= x && 0 <= y && 0 <= w && 0 <= h
        &&& x + w <= self.width
        &&& y + h <= self.height
    }

    /// The cut-out of `w` by `h` pixels whose top left corner is `(x, y)`.
    pub open spec fn cropped(self, x: int, y: int, w: int, h: int) -> Raster {
        let c = self.layout.channels() as int;
        Raster {
            layout: self.layout,
            width: w as nat,
            height: h as nat,
            samples: Seq::new(
                (w * h * c) as nat,
                |k: int| self.samples[((y + (k / c) / w) * self.width + x + (k / c) % w) * c + k % c],
            ),
        }
    }

    /// Every colour or luminance sample replaced by its distance from the
    /// largest sample value; alpha samples are kept.
    pub open spec fn inverted(self) -> Raster {
        Raster {
            samples: Seq::new(
                self.samples.len(),
                |k: int|
                    if self.layout.is_alpha_index(k) {
                        self.samples[k]
                    } else {
                        self.layout.max_sample() - self.samples[k]
                    },
            ),
            ..self
        }
    }

    /// The desaturated image: each pixel's colour replaced by its luminance,
    /// alpha kept. An image that holds luminance already is unchanged.
    pub open spec fn desaturated(self) -> Raster {
        if !self.layout.has_color() {
            self
        } else {
            let c = self.layout.channels() as int;
            let d = c - 2;
            Raster {
                layout: self.layout.desaturated(),
                samples: Seq::new(
                    (self.width * self.height * d) as nat,
                    |k: int|
                        if k % d == 0 {
                            luminance(
                                self.samples[(k / d) * c],
                                self.samples[(k / d) * c + 1],
                                self.samples[(k / d) * c + 2],
                            )
                        } else {
                            self.samples[(k / d) * c + 3]
                        },
                ),
                ..self
            }
        }
    }

    /// `delta` added to every colour or luminance sample, the sum limited to
    /// the sample range; alpha samples are kept.
    pub open spec fn brightened(self, delta: int) -> Raster {
        Raster {
            samples: Seq::new(
                self.samples.len(),
                |k: int|
                    if self.layout.is_alpha_index(k) {
                        self.samples[k]
                    } else {
                        clamp_int(self.samples[k] + delta, 0, self.layout.max_sample())
                    },
            ),
            ..self
        }
    }
}

} // verus!
