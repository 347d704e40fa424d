//! The whole pipeline: crop, invert, grayscale, then blur, brightness and hue
//! rotation, in this order and no other.

use vstd::prelude::*;
use image::DynamicImage;
use crate::picture::image_height;
use crate::picture::image_layout;
use crate::picture::image_width;
use crate::picture::raster;
use crate::raster::Raster;
use crate::transforms::apply_image_effects;
use crate::transforms::convert_to_grayscale;
use crate::transforms::crop_image;
use crate::transforms::effects_outcome;
use crate::transforms::extract_crop_values;
use crate::transforms::grayscale_outcome;
use crate::transforms::invert_colors;
use crate::transforms::invert_outcome;
use crate::transforms::outcome_of;
use crate::transforms::PipelineError;

verus! {

/// The image after the crop step: with no values the image itself, with four
/// the rectangle they name.
pub open spec fn crop_result(pre: Raster, values: Seq<u32>) -> Raster {
    if values.len() == 0 {
        pre
    } else {
        pre.cropped(values[0] as int, values[1] as int, values[2] as int, values[3] as int)
    }
}

/// The image after the invert step, where the flag decides whether it runs.
pub open spec fn invert_step(pre: Raster, invert: bool, post: Raster) -> bool {
    if invert {
        invert_outcome(pre, post)
    } else {
        post == pre
    }
}

/// The image after the grayscale step, where the flag decides whether it runs.
pub open spec fn grayscale_step(pre: Raster, gray_scale: bool, post: Raster) -> bool {
    if gray_scale {
        grayscale_outcome(pre, post)
    } else {
        post == pre
    }
}

/// The error that the crop values bring, if they bring one: a count other
/// than none and four, or four values whose rectangle reaches outside the
/// image. The count is looked at first, and which values there are plays no
/// part in it.
pub open spec fn crop_error(pre: Raster, values: Seq<u32>) -> Option<PipelineError> {
    if values.len() != 0 && values.len() != 4 {
        Some(PipelineError::CropArity)
    } else if values.len() == 4 && !pre.contains_rect(
        values[0] as int,
        values[1] as int,
        values[2] as int,
        values[3] as int,
    ) {
        Some(PipelineError::CropOutOfBounds)
    } else {
        None
    }
}

/// What the pipeline makes of an image whose crop values are in order:
/// `None` where brightening is refused, else the image that comes out.
pub open spec fn process_outcome(
    pre: Raster,
    radius: int,
    bright_value: int,
    values: Seq<u32>,
    invert: bool,
    degrees: int,
    gray_scale: bool,
    post: Option<Raster>,
) -> bool {
    exists|inverted: Raster, gray: Raster|
        #![trigger invert_step(crop_result(pre, values), invert, inverted), grayscale_step(inverted, gray_scale, gray)]
        invert_step(crop_result(pre, values), invert, inverted) && grayscale_step(inverted, gray_scale, gray)
            && effects_outcome(gray, radius, bright_value, degrees, post)
}

/// Checks the values given for the crop rectangle before any image is
/// touched: none at all is fine, and so are exactly four.
pub fn validate_cut_values(cut_values: &Option<Vec<u32>>) -> (r: Result<(), PipelineError>)
    ensures
        r == (if cut_values is Some && cut_values->0@.len() != 4 {
            Err::<(), PipelineError>(PipelineError::CropArity)
        } else {
            Ok::<(), PipelineError>(())
        }),
{
    match cut_values {
        Some(values) => {
            if values.len() != 4 {
                Err(PipelineError::CropArity)
            } else {
                Ok(())
            }
        },
        None => Ok(()),
    }
}

/// The rectangle that the crop values name: none for no values, the four
/// values for four, and an error for any other count.
pub fn crop_rectangle(crop_values: &[u32]) -> (r: Result<Option<(u32, u32, u32, u32)>, PipelineError>)
    ensures
        crop_values@.len() == 0 ==> r == Ok::<Option<(u32, u32, u32, u32)>, PipelineError>(None),
        crop_values@.len() == 4 ==> r == Ok::<Option<(u32, u32, u32, u32)>, PipelineError>(
            Some((crop_values@[0], crop_values@[1], crop_values@[2], crop_values@[3])),
        ),
        crop_values@.len() != 0 && crop_values@.len() != 4 ==> r == Err::<
            Option<(u32, u32, u32, u32)>,
            PipelineError,
        >(PipelineError::CropArity),
{
    if crop_values.len() == 0 {
        Ok(None)
    } else if crop_values.len() == 4 {
        Ok(Some(extract_crop_values(crop_values)))
    } else {
        Err(PipelineError::CropArity)
    }
}

/// Runs the pipeline on a decoded image. An empty `crop_values` means no
/// crop; `invert` and `gray_scale` switch their steps on; blur, brightness
/// and hue rotation always run and change nothing at 0. The crop values are
/// judged first. After that only brightening can refuse, and only on a float
/// image.
pub fn process(
    img: DynamicImage,
    blur_v: u32,
    bright_value: i32,
    crop_values: &[u32],
    invert: bool,
    huerotate: i32,
    gray_scale: bool,
) -> (r: Result<DynamicImage, PipelineError>)
    ensures
        match crop_error(raster(img), crop_values@) {
            Some(e) => r == Err::<DynamicImage, PipelineError>(e),
            None => {
                &&& process_outcome(
                    raster(img),
                    blur_v as int,
                    bright_value as int,
                    crop_values@,
                    invert,
                    huerotate as int,
                    gray_scale,
                    outcome_of(r),
                )
                &&& r is Err ==> r == Err::<DynamicImage, PipelineError>(PipelineError::FloatBrightness)
                &&& bright_value == 0 || !image_layout(img).is_float() ==> r is Ok
            },
        },
        r is Ok ==> {
            &&& image_width(r->Ok_0) == crop_result(raster(img), crop_values@).width
            &&& image_height(r->Ok_0) == crop_result(raster(img), crop_values@).height
            &&& image_layout(r->Ok_0) == if gray_scale {
                image_layout(img).desaturated()
            } else {
                image_layout(img)
            }
        },
{
    let mut img = img;
    match crop_rectangle(crop_values) {
        Err(e) => {
            return Err(e);
        },
        Ok(None) => {},
        Ok(Some((x, y, width, height))) => {
            match crop_image(img, x, y, width, height) {
                Ok(cut) => {
                    img = cut;
                },
                Err(e) => {
                    return Err(e);
                },
            }
        },
    }
    let ghost cropped = raster(img);
    if invert {
        invert_colors(&mut img);
    }
    let ghost inverted = raster(img);
    if gray_scale {
        img = convert_to_grayscale(&img);
    }
    let ghost gray = raster(img);
    assert(invert_step(cropped, invert, inverted));
    assert(grayscale_step(inverted, gray_scale, gray));
    apply_image_effects(img, blur_v, bright_value, huerotate)
}

} // verus!
