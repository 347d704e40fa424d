//! The single transforms of the pipeline, each with the decision of whether
//! and with what arguments the `image` crate is called.

use vstd::prelude::*;
use image::DynamicImage;
use crate::floats::float_takes_delta;
use crate::floats::sample_takes_delta;
use crate::laws::full_crop_is_identity;
use crate::picture::blur_copy;
use crate::picture::brighten_copy;
use crate::picture::byte_len_of;
use crate::picture::crop_window;
use crate::picture::float_sample_bits;
use crate::picture::grayscale_copy;
use crate::picture::height_of;
use crate::picture::huerotate_copy;
use crate::picture::image_byte_len;
use crate::picture::image_height;
use crate::picture::image_layout;
use crate::picture::image_width;
use crate::picture::invert_in_place;
use crate::picture::layout_of;
use crate::picture::raster;
use crate::picture::width_of;
use crate::raster::clamp_int;
use crate::raster::PixelLayout;
use crate::raster::Raster;
use crate::raster::MAX_DELTA;

verus! {

/// Why the pipeline refused to transform an image.
#[derive(Clone, Copy, Debug, PartialEq, Eq, Structural)]
pub enum PipelineError {
    /// The crop rectangle was given with a number of values other than four.
    CropArity,
    /// The crop rectangle reaches outside the image.
    CropOutOfBounds,
    /// A nonzero brightness delta was asked for on a floating-point image of
    /// which a colour sample, together with the delta, does not fit a 32-bit
    /// integer.
    FloatBrightness,
}

impl PipelineError {
    /// The text of the message that reports the error.
    pub open spec fn message_text(self) -> Seq<char> {
        match self {
            PipelineError::CropArity => "Error: Invalid number of cut values. The number of values must be 4."@,
            PipelineError::CropOutOfBounds => "Error: The crop rectangle reaches outside the image."@,
            PipelineError::FloatBrightness => "Error: Brightness cannot be changed on floating-point samples outside the 32-bit integer range."@,
        }
    }

    /// The message that reports the error to the user.
    pub fn message(&self) -> (text: &'static str)
        ensures
            text@ == self.message_text(),
    {
        match self {
            PipelineError::CropArity => "Error: Invalid number of cut values. The number of values must be 4.",
            PipelineError::CropOutOfBounds => "Error: The crop rectangle reaches outside the image.",
            PipelineError::FloatBrightness => "Error: Brightness cannot be changed on floating-point samples outside the 32-bit integer range.",
        }
    }
}

/// What inverting does to an image: layout, dimensions and alpha stay, and
/// an image of integer samples becomes exactly its inverse.
pub open spec fn invert_outcome(pre: Raster, post: Raster) -> bool {
    &&& post.same_shape(pre)
    &&& pre.alpha_kept(post)
    &&& !pre.layout.is_float() ==> post == pre.inverted()
}

/// What desaturating does to an image: dimensions stay and the layout
/// becomes the desaturated one. An image of integer samples becomes exactly
/// its luminance image; a float image keeps its alpha, and each of its
/// pixels becomes grey.
pub open spec fn grayscale_outcome(pre: Raster, post: Raster) -> bool {
    &&& post.layout == pre.layout.desaturated()
    &&& post.width == pre.width
    &&& post.height == pre.height
    &&& !pre.layout.is_float() ==> post == pre.desaturated()
    &&& pre.layout.is_float() ==> post.all_grey() && pre.alpha_kept(post)
}

/// What blurring does to an image: nothing for radius 0 or an image without
/// pixels; otherwise layout and dimensions stay.
pub open spec fn blur_outcome(pre: Raster, radius: int, post: Raster) -> bool {
    if radius == 0 || pre.is_empty() {
        post == pre
    } else {
        post.same_shape(pre)
    }
}

/// Whether brightening is refused: the delta is not 0, the samples are
/// floats, and one of the colour samples cannot take the delta as a 32-bit
/// integer.
pub open spec fn brighten_refused(pre: Raster, delta: int) -> bool {
    delta != 0 && pre.layout.is_float() && !pre.takes_delta(delta)
}

/// The image of integer samples brightened by `delta`. Delta 0 changes
/// nothing; a delta beyond the widest sample range counts as the end of that
/// range.
pub open spec fn brighten_result(pre: Raster, delta: int) -> Raster {
    if delta == 0 {
        pre
    } else {
        pre.brightened(clamp_int(delta, -(MAX_DELTA as int), MAX_DELTA as int))
    }
}

/// What brightening does to an image, where it is not refused: nothing for
/// delta 0; an image of integer samples becomes exactly the brightened one;
/// a float image keeps layout, dimensions and alpha.
pub open spec fn brighten_outcome(pre: Raster, delta: int, post: Raster) -> bool {
    if delta == 0 || !pre.layout.is_float() {
        post == brighten_result(pre, delta)
    } else {
        post.same_shape(pre) && pre.alpha_kept(post)
    }
}

/// The angle between 0 and 359 that a count of degrees comes to.
pub open spec fn hue_angle(degrees: int) -> int {
    degrees % 360
}

/// What rotating the hue does to an image: nothing for a whole number of
/// turns; otherwise layout and dimensions stay. The count of degrees matters
/// through its angle alone.
pub open spec fn hue_outcome(pre: Raster, degrees: int, post: Raster) -> bool {
    if hue_angle(degrees) == 0 {
        post == pre
    } else {
        post.same_shape(pre)
    }
}

/// What brightness and then hue rotation make of a blurred image: `None`
/// where brightening is refused, else the image that comes out.
pub open spec fn colour_outcome(blurred: Raster, delta: int, degrees: int, post: Option<Raster>) -> bool {
    if brighten_refused(blurred, delta) {
        post is None
    } else {
        post is Some && exists|bright: Raster| #[trigger]
            brighten_outcome(blurred, delta, bright) && hue_outcome(bright, degrees, post->0)
    }
}

/// What blur, then brightness, then hue rotation make of an image: `None`
/// where brightening is refused, else the image that comes out.
pub open spec fn effects_outcome(pre: Raster, radius: int, delta: int, degrees: int, post: Option<Raster>) -> bool {
    exists|blurred: Raster| #[trigger]
        blur_outcome(pre, radius, blurred) && colour_outcome(blurred, delta, degrees, post)
}

/// The image that a result holds, if it holds one.
pub open spec fn outcome_of(r: Result<DynamicImage, PipelineError>) -> Option<Raster> {
    match r {
        Ok(img) => Some(raster(img)),
        Err(_) => None,
    }
}

/// The layout of the image. Every image is well formed: it has one sample
/// for each channel of each pixel, each in the range of the layout.
pub fn pixel_layout(img: &DynamicImage) -> (layout: PixelLayout)
    ensures
        layout == image_layout(*img),
        raster(*img).well_formed(),
{
    layout_of(img)
}

/// The four values of a crop rectangle: x, y, width, height.
pub fn extract_crop_values(values: &[u32]) -> (rect: (u32, u32, u32, u32))
    requires
        values@.len() == 4,
    ensures
        rect == (values@[0], values@[1], values@[2], values@[3]),
{
    (values[0], values[1], values[2], values[3])
}

/// The angle, from 0 to 359 degrees, that the hue is rotated by for a count
/// of degrees of either sign.
pub fn rotation_angle(degrees: i32) -> (angle: i32)
    ensures
        angle == hue_angle(degrees as int),
        0 <= angle < 360,
{
    let turn: i32 = degrees % 360;
    if turn < 0 {
        turn + 360
    } else {
        turn
    }
}

/// Cuts the rectangle of `width` by `height` pixels at `(x, y)` out of the
/// image. A rectangle that reaches outside the image is refused, not clamped.
pub fn crop_image(img: DynamicImage, x: u32, y: u32, width: u32, height: u32) -> (r: Result<DynamicImage, PipelineError>)
    ensures
        raster(img).contains_rect(x as int, y as int, width as int, height as int) ==> r is Ok && raster(r->Ok_0)
            == raster(img).cropped(x as int, y as int, width as int, height as int),
        !raster(img).contains_rect(x as int, y as int, width as int, height as int) ==> r == Err::<
            DynamicImage,
            PipelineError,
        >(PipelineError::CropOutOfBounds),
        r is Ok ==> image_width(r->Ok_0) == width && image_height(r->Ok_0) == height,
{
    let w = width_of(&img);
    let h = height_of(&img);
    if width <= w && x <= w - width && height <= h && y <= h - height {
        Ok(crop_window(img, x, y, width, height))
    } else {
        Err(PipelineError::CropOutOfBounds)
    }
}

/// Inverts the colours of the image in place; alpha is left alone.
pub fn invert_colors(img: &mut DynamicImage)
    ensures
        invert_outcome(raster(*old(img)), raster(*final(img))),
{
    invert_in_place(img);
}

/// A desaturated copy of the image.
pub fn convert_to_grayscale(img: &DynamicImage) -> (out: DynamicImage)
    ensures
        grayscale_outcome(raster(*img), raster(out)),
{
    grayscale_copy(img)
}

/// Whether the container of the image holds its samples and nothing more.
fn container_is_exact(img: &DynamicImage, layout: PixelLayout, w: u32, h: u32) -> (exact: bool)
    requires
        layout == image_layout(*img),
        w == image_width(*img),
        h == image_height(*img),
    ensures
        exact == (image_byte_len(*img) == raster(*img).byte_len()),
{
    let pixels: u64 = w as u64;
    let rows: u64 = h as u64;
    let per_pixel: u128 = (layout.channel_count() as u128) * (layout.bytes_per_sample() as u128);
    assert(pixels * rows <= 0xffff_ffff * 0xffff_ffff) by (nonlinear_arith)
        requires
            pixels <= 0xffff_ffff,
            rows <= 0xffff_ffff,
    ;
    let area: u128 = (pixels as u128) * (rows as u128);
    assert(area * per_pixel <= 0xffff_ffff * 0xffff_ffff * 16) by (nonlinear_arith)
        requires
            area <= 0xffff_ffff * 0xffff_ffff,
            per_pixel <= 16,
    ;
    let needed: u128 = area * per_pixel;
    assert(needed == raster(*img).byte_len()) by (nonlinear_arith)
        requires
            needed == (w * h) * (layout.channels() * layout.sample_bytes()),
            raster(*img).byte_len() == w * h * layout.channels() * layout.sample_bytes(),
    ;
    byte_len_of(img) as u128 == needed
}

/// Whether the delta can be added to every colour sample of a float image.
fn float_image_takes_delta(img: &DynamicImage, layout: PixelLayout, delta: i32) -> (ok: bool)
    requires
        layout == image_layout(*img),
        layout.is_float(),
    ensures
        ok == raster(*img).takes_delta(delta as int),
{
    let bits = float_sample_bits(img);
    let channels: usize = layout.channel_count() as usize;
    let alpha: bool = layout.carries_alpha();
    let mut k: usize = 0;
    while k < bits.len()
        invariant
            k <= bits.len(),
            bits@.len() == raster(*img).samples.len(),
            forall|j: int| 0 <= j < bits@.len() ==> #[trigger] bits@[j] as int == raster(*img).samples[j],
            channels == layout.channels(),
            alpha == layout.has_alpha(),
            layout == raster(*img).layout,
            forall|j: int|
                0 <= j < k && !layout.is_alpha_index(j) ==> float_takes_delta(
                    #[trigger] raster(*img).samples[j] as u32,
                    delta as int,
                ),
        decreases bits.len() - k,
    {
        let is_alpha: bool = alpha && k % channels == channels - 1;
        if !is_alpha && !sample_takes_delta(bits[k], delta) {
            assert(bits@[k as int] as int == raster(*img).samples[k as int]);
            return false;
        }
        assert(bits@[k as int] as int == raster(*img).samples[k as int]);
        k += 1;
    }
    true
}

/// Blurs with the given radius, then adds the brightness delta, then rotates
/// the hue by the given degrees. Each of the three is left out where it would
/// change nothing: radius 0 or an image without pixels, delta 0, a whole
/// number of turns. A nonzero delta is refused on a float image of which a
/// colour sample, after the blur, does not fit a 32-bit integer together
/// with the delta; it is never refused on integer samples.
pub fn apply_image_effects(img: DynamicImage, blur_v: u32, bright_value: i32, huerotate: i32) -> (r: Result<DynamicImage, PipelineError>)
    ensures
        effects_outcome(raster(img), blur_v as int, bright_value as int, huerotate as int, outcome_of(r)),
        r is Err ==> r == Err::<DynamicImage, PipelineError>(PipelineError::FloatBrightness),
        bright_value == 0 || !image_layout(img).is_float() ==> r is Ok,
        r is Ok ==> image_layout(r->Ok_0) == image_layout(img) && image_width(r->Ok_0) == image_width(img)
            && image_height(r->Ok_0) == image_height(img),
{
    let ghost pre = raster(img);
    let layout = layout_of(&img);
    let w = width_of(&img);
    let h = height_of(&img);
    let blurred = if blur_v != 0 && w > 0 && h > 0 {
        let exact = if container_is_exact(&img, layout, w, h) {
            img
        } else {
            crop_window(img, 0, 0, w, h)
        };
        proof {
            full_crop_is_identity(pre);
        }
        assert(raster(exact) == pre);
        blur_copy(&exact, blur_v)
    } else {
        img
    };
    let ghost mid = raster(blurred);
    assert(blur_outcome(pre, blur_v as int, mid));
    let brightened = if bright_value == 0 {
        blurred
    } else if !layout.stores_floats() {
        let delta: i32 = if bright_value > MAX_DELTA {
            MAX_DELTA
        } else if bright_value < -MAX_DELTA {
            -MAX_DELTA
        } else {
            bright_value
        };
        brighten_copy(&blurred, delta)
    } else if float_image_takes_delta(&blurred, layout, bright_value) {
        brighten_copy(&blurred, bright_value)
    } else {
        assert(colour_outcome(mid, bright_value as int, huerotate as int, None));
        return Err(PipelineError::FloatBrightness);
    };
    let ghost bright = raster(brightened);
    assert(brighten_outcome(mid, bright_value as int, bright));
    let angle: i32 = rotation_angle(huerotate);
    let rotated = if angle != 0 {
        huerotate_copy(&brightened, angle)
    } else {
        brightened
    };
    assert(hue_outcome(bright, huerotate as int, raster(rotated)));
    assert(colour_outcome(mid, bright_value as int, huerotate as int, Some(raster(rotated))));
    Ok(rotated)
}

} // verus!
