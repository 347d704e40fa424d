//! The boundary to the `image` crate: the image type, the names under which
//! contracts speak of what an image holds, and one function per transform.

use vstd::prelude::*;
use image::ColorType;
use image::DynamicImage;
use crate::raster::PixelLayout;
use crate::raster::Raster;

verus! {

/// `image::DynamicImage`, a decoded image in one of ten pixel layouts. Its
/// inside is not visible here; contracts speak of it through the five names
/// below.
#[verifier::external_type_specification]
#[verifier::external_body]
pub struct ExDynamicImage(image::DynamicImage);

/// The pixel layout of an image: which variant of `DynamicImage` it is.
pub uninterp spec fn image_layout(img: DynamicImage) -> PixelLayout;

/// The number of pixels in one row of an image.
pub uninterp spec fn image_width(img: DynamicImage) -> nat;

/// The number of rows of an image.
pub uninterp spec fn image_height(img: DynamicImage) -> nat;

/// The samples of an image in the order of its buffer: row by row, pixel by
/// pixel, channel by channel. A floating-point sample is held as its bits.
pub uninterp spec fn image_samples(img: DynamicImage) -> Seq<int>;

/// The length in bytes of the container that holds the samples of an image.
/// It is at least what the samples take, and may be more.
pub uninterp spec fn image_byte_len(img: DynamicImage) -> nat;

/// What an image holds, as a value.
pub open spec fn raster(img: DynamicImage) -> Raster {
    Raster {
        layout: image_layout(img),
        width: image_width(img),
        height: image_height(img),
        samples: image_samples(img),
    }
}

/// `DynamicImage::width`: the width of the image in pixels.
#[verifier::external_body]
pub(crate) fn width_of(img: &DynamicImage) -> (w: u32)
    ensures
        w == image_width(*img),
{
    img.width()
}

/// `DynamicImage::height`: the height of the image in pixels.
#[verifier::external_body]
pub(crate) fn height_of(img: &DynamicImage) -> (h: u32)
    ensures
        h == image_height(*img),
{
    img.height()
}

/// `DynamicImage::color`: the layout of the image, one arm for each colour
/// type; the last arm stands for the one that is left, float with alpha. An
/// image has one sample for each channel of each pixel, and every sample
/// lies in the range of the layout.
#[verifier::external_body]
pub(crate) fn layout_of(img: &DynamicImage) -> (layout: PixelLayout)
    ensures
        layout == image_layout(*img),
        raster(*img).laid_out_as(layout),
{
    match img.color() {
        ColorType::L8 => PixelLayout::Luma8,
        ColorType::La8 => PixelLayout::LumaAlpha8,
        ColorType::Rgb8 => PixelLayout::Rgb8,
        ColorType::Rgba8 => PixelLayout::Rgba8,
        ColorType::L16 => PixelLayout::Luma16,
        ColorType::La16 => PixelLayout::LumaAlpha16,
        ColorType::Rgb16 => PixelLayout::Rgb16,
        ColorType::Rgba16 => PixelLayout::Rgba16,
        ColorType::Rgb32F => PixelLayout::RgbFloat,
        _ => PixelLayout::RgbaFloat,
    }
}

/// `DynamicImage::as_bytes`, and the length of what it returns: the length
/// in bytes of the whole container of the image.
#[verifier::external_body]
pub(crate) fn byte_len_of(img: &DynamicImage) -> (n: usize)
    ensures
        n == image_byte_len(*img),
{
    img.as_bytes().len()
}

/// `ImageBuffer::pixels` on a float image: the samples of the image in
/// their order, each as the bits of the float.
#[verifier::external_body]
pub(crate) fn float_sample_bits(img: &DynamicImage) -> (bits: Vec<u32>)
    requires
        image_layout(*img).is_float(),
    ensures
        bits@.len() == image_samples(*img).len(),
        forall|k: int| 0 <= k < bits@.len() ==> #[trigger] bits@[k] as int == image_samples(*img)[k],
{
    match img {
        DynamicImage::ImageRgb32F(b) => b.pixels().flat_map(|p| p.0).map(|s| s.to_bits()).collect(),
        DynamicImage::ImageRgba32F(b) => b.pixels().flat_map(|p| p.0).map(|s| s.to_bits()).collect(),
        _ => Vec::new(),
    }
}

/// `DynamicImage::crop`, for a rectangle inside the image: the result has the
/// layout of the image and the rectangle's dimensions, and its pixel at
/// `(i, j)` is the image's pixel at `(x + i, y + j)`, sample for sample. Its
/// container is new and holds these samples and nothing more.
#[verifier::external_body]
pub(crate) fn crop_window(img: DynamicImage, x: u32, y: u32, width: u32, height: u32) -> (out: DynamicImage)
    requires
        x + width <= image_width(img),
        y + height <= image_height(img),
    ensures
        image_layout(out) == image_layout(img),
        image_width(out) == width,
        image_height(out) == height,
        image_samples(out) == raster(img).cropped(x as int, y as int, width as int, height as int).samples,
        image_byte_len(out) == raster(out).byte_len(),
{
    let mut img = img;
    img.crop(x, y, width, height)
}

/// `DynamicImage::invert`: layout, dimensions and every alpha sample stay.
/// In an integer layout every other sample becomes the largest sample value
/// minus itself. Nothing is said of the colour samples of a float image.
#[verifier::external_body]
pub(crate) fn invert_in_place(img: &mut DynamicImage)
    ensures
        raster(*final(img)).same_shape(raster(*old(img))),
        raster(*old(img)).alpha_kept(raster(*final(img))),
        !image_layout(*old(img)).is_float() ==> image_samples(*final(img)) == raster(*old(img)).inverted().samples,
{
    img.invert()
}

/// `DynamicImage::grayscale`: dimensions stay; integer colour becomes
/// luminance of the same depth, with alpha where there was alpha; every other
/// layout stays. In an integer layout the luminance of a pixel is
/// `(2126 r + 7152 g + 722 b) / 10000`, rounded down. A float image keeps
/// its three colour samples per pixel, all three the same number, and its
/// alpha samples; which number is not said.
#[verifier::external_body]
pub(crate) fn grayscale_copy(img: &DynamicImage) -> (out: DynamicImage)
    ensures
        image_layout(out) == image_layout(*img).desaturated(),
        image_width(out) == image_width(*img),
        image_height(out) == image_height(*img),
        !image_layout(*img).is_float() ==> image_samples(out) == raster(*img).desaturated().samples,
        image_layout(*img).is_float() ==> raster(out).all_grey() && raster(*img).alpha_kept(raster(out)),
{
    img.grayscale()
}

/// `DynamicImage::blur` with a positive sigma on an image that has pixels
/// and whose container holds its samples and nothing more: layout and
/// dimensions stay. The samples come out of floating-point
/// arithmetic, and nothing is said of them.
#[verifier::external_body]
pub(crate) fn blur_copy(img: &DynamicImage, sigma: u32) -> (out: DynamicImage)
    requires
        sigma > 0,
        image_width(*img) > 0,
        image_height(*img) > 0,
        image_byte_len(*img) == raster(*img).byte_len(),
    ensures
        raster(out).same_shape(raster(*img)),
{
    img.blur(sigma as _)
}

/// `DynamicImage::brighten`, with a delta that cannot overflow the sum and,
/// on a float image, colour samples that each fit a 32-bit integer: layout,
/// dimensions and every alpha sample stay. In an integer layout every other
/// sample becomes itself plus the delta, limited to the sample range.
/// Nothing is said of the colour samples of a float image.
#[verifier::external_body]
pub(crate) fn brighten_copy(img: &DynamicImage, delta: i32) -> (out: DynamicImage)
    requires
        !image_layout(*img).is_float() ==> -65535 <= delta <= 65535,
        image_layout(*img).is_float() ==> raster(*img).takes_delta(delta as int),
    ensures
        raster(out).same_shape(raster(*img)),
        raster(*img).alpha_kept(raster(out)),
        !image_layout(*img).is_float() ==> image_samples(out) == raster(*img).brightened(delta as int).samples,
{
    img.brighten(delta)
}

/// `DynamicImage::huerotate`: layout and dimensions stay. The samples come
/// out of floating-point arithmetic, and nothing is said of them.
#[verifier::external_body]
pub(crate) fn huerotate_copy(img: &DynamicImage, degrees: i32) -> (out: DynamicImage)
    requires
        0 < degrees < 360,
    ensures
        raster(out).same_shape(raster(*img)),
{
    img.huerotate(degrees)
}

} // verus!
