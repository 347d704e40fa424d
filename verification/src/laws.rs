//! What holds of the pipeline whatever the image: proved statements over the
//! model that the contracts of the transforms use.

use vstd::prelude::*;
use vstd::arithmetic::div_mod::lemma_fundamental_div_mod;
use vstd::arithmetic::div_mod::lemma_mod_multiples_vanish;
use crate::pipeline::crop_error;
use crate::pipeline::crop_result;
use crate::pipeline::process_outcome;
use crate::raster::Raster;
use crate::transforms::brighten_result;
use crate::transforms::effects_outcome;
use crate::transforms::grayscale_outcome;
use crate::transforms::hue_angle;
use crate::transforms::hue_outcome;
use crate::transforms::invert_outcome;
use crate::transforms::PipelineError;

verus! {

/// With every transform switched off (no crop values, no inversion, no
/// grayscale, radius 0, delta 0 and a whole number of turns) the pipeline
/// ends well, and the image that comes out is the image that went in.
pub proof fn idle_pipeline_is_identity(pre: Raster, turns: int, post: Option<Raster>)
    requires
        process_outcome(pre, 0, 0, Seq::<u32>::empty(), false, 360 * turns, false, post),
    ensures
        crop_error(pre, Seq::<u32>::empty()) is None,
        post == Some(pre),
{
    whole_turns_leave_the_angle_at_zero(turns);
}

/// With blur, brightness and hue rotation at rest, the three effects leave
/// the image as it is.
pub proof fn idle_effects_are_identity(pre: Raster, turns: int, post: Option<Raster>)
    requires
        effects_outcome(pre, 0, 0, 360 * turns, post),
    ensures
        post == Some(pre),
{
    whole_turns_leave_the_angle_at_zero(turns);
}

/// Whatever the radius, the delta and the degrees, the three effects keep
/// the layout and the dimensions of the image; and they refuse no image of
/// integer samples and no delta 0.
pub proof fn effects_keep_the_shape(pre: Raster, radius: int, delta: int, degrees: int, post: Option<Raster>)
    requires
        effects_outcome(pre, radius, delta, degrees, post),
    ensures
        post is Some ==> post->0.same_shape(pre),
        delta == 0 || !pre.layout.is_float() ==> post is Some,
{
}

/// A count of crop values other than none and four is refused, whatever the
/// values are and whatever the image is.
pub proof fn wrong_count_is_refused(pre: Raster, values: Seq<u32>)
    ensures
        (values.len() != 0 && values.len() != 4) <==> crop_error(pre, values) == Some(PipelineError::CropArity),
{
}

/// Whether the count of crop values is refused depends on the count alone.
pub proof fn count_alone_decides(pre: Raster, other: Raster, values: Seq<u32>, others: Seq<u32>)
    requires
        values.len() == others.len(),
    ensures
        (crop_error(pre, values) == Some(PipelineError::CropArity)) == (crop_error(other, others) == Some(
            PipelineError::CropArity,
        )),
{
}

/// Where the pipeline crops to a rectangle inside the image and ends well,
/// the image that comes out has the rectangle's width and height, whatever
/// the other parameters.
pub proof fn output_has_the_size_of_the_crop(
    pre: Raster,
    radius: int,
    bright_value: int,
    values: Seq<u32>,
    invert: bool,
    degrees: int,
    gray_scale: bool,
    post: Raster,
)
    requires
        values.len() == 4,
        crop_error(pre, values) is None,
        process_outcome(pre, radius, bright_value, values, invert, degrees, gray_scale, Some(post)),
    ensures
        post.width == values[2],
        post.height == values[3],
{
}

/// The pipeline with a crop and grayscale and nothing else does what the
/// crop followed by desaturation does.
pub proof fn crop_with_grayscale_composes(pre: Raster, values: Seq<u32>, turns: int, post: Option<Raster>)
    requires
        process_outcome(pre, 0, 0, values, false, 360 * turns, true, post),
    ensures
        post is Some,
        grayscale_outcome(crop_result(pre, values), post->0),
{
    whole_turns_leave_the_angle_at_zero(turns);
}

/// A crop inside the image has the width and height that were asked for,
/// the layout of the image, and the samples of that many pixels.
pub proof fn crop_has_requested_size(pre: Raster, x: int, y: int, w: int, h: int)
    requires
        pre.contains_rect(x, y, w, h),
    ensures
        pre.cropped(x, y, w, h).width == w,
        pre.cropped(x, y, w, h).height == h,
        pre.cropped(x, y, w, h).layout == pre.layout,
        pre.cropped(x, y, w, h).samples.len() == w * h * pre.layout.channels(),
{
    let c = pre.layout.channels() as int;
    assert(0 <= w * h * c) by (nonlinear_arith)
        requires
            0 <= w,
            0 <= h,
            0 <= c,
    ;
}

/// The crop of the whole image is the image.
pub proof fn full_crop_is_identity(pre: Raster)
    requires
        pre.well_formed(),
    ensures
        pre.cropped(0, 0, pre.width as int, pre.height as int) == pre,
{
    let w = pre.width as int;
    let h = pre.height as int;
    let c = pre.layout.channels() as int;
    let cut = pre.cropped(0, 0, w, h);
    assert(w * h * c == pre.width * pre.height * pre.layout.channels()) by (nonlinear_arith)
        requires
            w == pre.width,
            h == pre.height,
            c == pre.layout.channels(),
    ;
    assert forall|k: int| 0 <= k < cut.samples.len() implies cut.samples[k] == pre.samples[k] by {
        if w > 0 {
            lemma_fundamental_div_mod(k, c);
            lemma_fundamental_div_mod(k / c, w);
            assert(((k / c) / w) * w == w * ((k / c) / w)) by (nonlinear_arith);
            assert((k / c) * c == c * (k / c)) by (nonlinear_arith);
        } else {
            assert(w * h * c == 0) by (nonlinear_arith)
                requires
                    w == 0,
            ;
        }
    }
    assert(cut.samples =~= pre.samples);
}

/// Inverting an image of integer samples twice gives the image back.
pub proof fn invert_is_involution(pre: Raster)
    requires
        !pre.layout.is_float(),
    ensures
        pre.inverted().inverted() == pre,
{
    assert(pre.inverted().inverted().samples =~= pre.samples);
}

/// Two inversions in a row, as the transform performs them, restore an image
/// of integer samples.
pub proof fn inverting_twice_restores(pre: Raster, once: Raster, twice: Raster)
    requires
        !pre.layout.is_float(),
        invert_outcome(pre, once),
        invert_outcome(once, twice),
    ensures
        twice == pre,
{
    invert_is_involution(pre);
}

/// A whole number of turns comes to the angle 0.
pub proof fn whole_turns_leave_the_angle_at_zero(turns: int)
    ensures
        hue_angle(360 * turns) == 0,
{
    lemma_mod_multiples_vanish(turns, 0, 360);
    assert(360 * turns + 0 == 360 * turns);
}

/// Rotating the hue by a whole number of turns, 0 and 360 degrees among
/// them, changes nothing.
pub proof fn whole_turns_do_not_rotate(pre: Raster, turns: int, post: Raster)
    requires
        hue_outcome(pre, 360 * turns, post),
    ensures
        post == pre,
{
    whole_turns_leave_the_angle_at_zero(turns);
}

/// Hue rotation is modular: adding whole turns to the degrees changes
/// neither the angle that is rotated by nor what is known of the result.
pub proof fn hue_rotation_is_modular(pre: Raster, degrees: int, turns: int, post: Raster)
    ensures
        0 <= hue_angle(degrees) < 360,
        hue_angle(degrees + 360 * turns) == hue_angle(degrees),
        hue_outcome(pre, degrees + 360 * turns, post) == hue_outcome(pre, degrees, post),
{
    lemma_mod_multiples_vanish(turns, degrees, 360);
    assert(360 * turns + degrees == degrees + 360 * turns);
}

/// On an image of integer samples, limiting the delta loses nothing: the
/// image is brightened by the delta itself, delta 0 included.
pub proof fn brightening_saturates(pre: Raster, delta: int)
    requires
        pre.well_formed(),
        !pre.layout.is_float(),
    ensures
        brighten_result(pre, delta) == pre.brightened(delta),
{
    assert(brighten_result(pre, delta).samples =~= pre.brightened(delta).samples);
}

/// On an image of integer samples, a larger delta gives no smaller sample.
pub proof fn brightening_is_monotone(pre: Raster, smaller: int, larger: int, k: int)
    requires
        pre.well_formed(),
        !pre.layout.is_float(),
        smaller <= larger,
        0 <= k < pre.samples.len(),
    ensures
        brighten_result(pre, smaller).samples[k] <= brighten_result(pre, larger).samples[k],
{
    brightening_saturates(pre, smaller);
    brightening_saturates(pre, larger);
}

} // verus!
