use image::ColorType;
use image::DynamicImage;
use image::Rgb;
use image::Rgb32FImage;
use image::RgbImage;
use image::Rgba;
use image::RgbaImage;
use rustpix::pipeline::process;
use rustpix::transforms::PipelineError;

fn patterned_rgb8(w: u32, h: u32) -> DynamicImage {
    DynamicImage::ImageRgb8(RgbImage::from_fn(w, h, |x, y| {
        Rgb([(x * 7 + y * 3) as u8, (x * 5 + 40) as u8, (y * 11 + 90) as u8])
    }))
}

fn patterned_rgba8(w: u32, h: u32) -> DynamicImage {
    DynamicImage::ImageRgba8(RgbaImage::from_fn(w, h, |x, y| {
        Rgba([(x * 9) as u8, (y * 13) as u8, (x * y) as u8, (255 - x - y) as u8])
    }))
}

#[test]
fn no_flags_give_the_input_back() {
    let src = patterned_rgb8(17, 11);
    assert_eq!(process(src.clone(), 0, 0, &[], false, 0, false), Ok(src));
    let src = patterned_rgba8(5, 9);
    assert_eq!(process(src.clone(), 0, 0, &[], false, 0, false), Ok(src));
}

#[test]
fn no_flags_give_every_layout_back() {
    let sources = vec![
        DynamicImage::new_luma8(3, 2),
        DynamicImage::new_luma_a8(3, 2),
        DynamicImage::new_rgb8(3, 2),
        DynamicImage::new_rgba8(3, 2),
        DynamicImage::new_luma16(3, 2),
        DynamicImage::new_luma_a16(3, 2),
        DynamicImage::new_rgb16(3, 2),
        DynamicImage::new_rgba16(3, 2),
        DynamicImage::new_rgb32f(3, 2),
        DynamicImage::new_rgba32f(3, 2),
        DynamicImage::new_rgb8(0, 0),
    ];
    for src in sources {
        assert_eq!(process(src.clone(), 0, 0, &[], false, 360, false), Ok(src));
    }
}

#[test]
fn crop_then_grayscale_of_an_opaque_square() {
    let src = patterned_rgb8(100, 100);
    let out = process(src.clone(), 0, 0, &[0, 0, 50, 50], false, 0, true).unwrap();
    assert_eq!(out.width(), 50);
    assert_eq!(out.height(), 50);
    assert_eq!(out.color(), ColorType::L8);
    assert_eq!(out.as_bytes().len(), 50 * 50);
    assert_eq!(out, src.crop_imm(0, 0, 50, 50).grayscale());
    // pixel (3, 2): red 27, green 55, blue 112
    // (2126 * 27 + 7152 * 55 + 722 * 112) / 10000 = 531626 / 10000 = 53
    assert_eq!(out.as_bytes()[2 * 50 + 3], 53);
}

#[test]
fn inverting_the_inverted_output_reproduces_the_input() {
    let src = patterned_rgba8(20, 10);
    let once = process(src.clone(), 0, 0, &[], true, 0, false).unwrap();
    assert_ne!(once, src);
    let twice = process(once, 0, 0, &[], true, 0, false).unwrap();
    assert_eq!(twice, src);
}

#[test]
fn invert_flag_inverts() {
    let src = DynamicImage::ImageRgb8(RgbImage::from_raw(1, 1, vec![0, 100, 255]).unwrap());
    let out = process(src, 0, 0, &[], true, 0, false).unwrap();
    assert_eq!(out, DynamicImage::ImageRgb8(RgbImage::from_raw(1, 1, vec![255, 155, 0]).unwrap()));
}

#[test]
fn steps_run_in_the_fixed_order() {
    let src = patterned_rgba8(24, 18);
    let out = process(src.clone(), 1, 25, &[3, 2, 16, 12], true, 200, true).unwrap();
    let mut expected = src.crop_imm(3, 2, 16, 12);
    expected.invert();
    let expected = expected.grayscale().blur(1.0).brighten(25).huerotate(200);
    assert_eq!(out, expected);
    assert_eq!(out.color(), ColorType::La8);
    assert_eq!((out.width(), out.height()), (16, 12));
}

#[test]
fn invert_comes_before_grayscale() {
    let src = DynamicImage::ImageRgb8(RgbImage::from_raw(1, 1, vec![10, 200, 30]).unwrap());
    let out = process(src, 0, 0, &[], true, 0, true).unwrap();
    // inverted: 245, 55, 225; (2126 * 245 + 7152 * 55 + 722 * 225) / 10000 = 1076680 / 10000 = 107
    assert_eq!(out.color(), ColorType::L8);
    assert_eq!(out.as_bytes(), &[107u8][..]);
}

#[test]
fn grayscale_comes_before_brightness() {
    let src = DynamicImage::ImageRgb8(RgbImage::from_raw(1, 1, vec![10, 200, 30]).unwrap());
    let out = process(src, 0, 100, &[], false, 0, true).unwrap();
    // luminance 147, plus 100
    assert_eq!(out.as_bytes(), &[247u8][..]);
}

#[test]
fn crop_comes_before_blur() {
    let src = patterned_rgb8(30, 30);
    let out = process(src.clone(), 2, 0, &[5, 5, 10, 10], false, 0, false).unwrap();
    assert_eq!(out, src.crop_imm(5, 5, 10, 10).blur(2.0));
    assert_ne!(out, src.blur(2.0).crop_imm(5, 5, 10, 10));
}

#[test]
fn process_refuses_brightness_on_float_samples_that_fit_no_integer() {
    let bad = DynamicImage::ImageRgb32F(Rgb32FImage::from_pixel(4, 4, Rgb([0.5, f32::NAN, 0.5])));
    let out = process(bad.clone(), 0, 5, &[], false, 0, false);
    assert_eq!(out, Err(PipelineError::FloatBrightness));
    let out = process(bad.clone(), 0, -5, &[1, 1, 2, 2], false, 30, false);
    assert_eq!(out, Err(PipelineError::FloatBrightness));
    // with the delta at rest the same image goes through
    assert_eq!((process(bad.clone(), 0, 0, &[], false, 0, false).unwrap().width()), 4);
}

#[test]
fn process_brightens_ordinary_float_samples() {
    let src = DynamicImage::ImageRgb32F(Rgb32FImage::from_fn(6, 4, |x, y| Rgb([x as f32 / 6.0, y as f32 / 4.0, 1.0])));
    let out = process(src.clone(), 0, 5, &[], false, 0, false).unwrap();
    assert_eq!(out, src.brighten(5));
    assert_eq!(out.color(), ColorType::Rgb32F);
    let out = process(src.clone(), 1, -5, &[1, 1, 4, 2], true, 30, true).unwrap();
    assert_eq!(out.color(), ColorType::Rgb32F);
    assert_eq!((out.width(), out.height()), (4, 2));
    let mut expected = src.crop_imm(1, 1, 4, 2);
    expected.invert();
    assert_eq!(out, expected.grayscale().blur(1.0).brighten(-5).huerotate(30));
}

#[test]
fn process_judges_brightness_on_the_samples_that_reach_it() {
    // the one sample that fits no integer lies outside the crop
    let src = DynamicImage::ImageRgb32F(Rgb32FImage::from_fn(4, 4, |x, y| {
        if x == 3 && y == 3 {
            Rgb([f32::INFINITY, 0.0, 0.0])
        } else {
            Rgb([0.25, 0.5, 0.75])
        }
    }));
    assert_eq!(process(src.clone(), 0, 1, &[], false, 0, false), Err(PipelineError::FloatBrightness));
    let out = process(src.clone(), 0, 1, &[0, 0, 3, 3], false, 0, false).unwrap();
    assert_eq!(out, src.crop_imm(0, 0, 3, 3).brighten(1));
}

#[test]
fn process_takes_float_samples_through_the_other_steps() {
    let out = process(DynamicImage::new_rgba32f(6, 4), 1, 0, &[1, 1, 4, 2], true, 30, true).unwrap();
    assert_eq!(out.color(), ColorType::Rgba32F);
    assert_eq!((out.width(), out.height()), (4, 2));
}

#[test]
fn process_blurs_nothing_in_an_empty_crop() {
    let out = process(patterned_rgb8(8, 8), 3, 20, &[2, 2, 0, 0], true, 45, true).unwrap();
    assert_eq!((out.width(), out.height()), (0, 0));
    assert_eq!(out.color(), ColorType::L8);
}

#[test]
fn hue_degrees_count_modulo_a_full_turn() {
    let src = patterned_rgb8(12, 9);
    let by_ten = process(src.clone(), 0, 0, &[], false, 10, false).unwrap();
    assert_eq!(process(src.clone(), 0, 0, &[], false, 370, false).unwrap(), by_ten);
    assert_eq!(process(src.clone(), 0, 0, &[], false, -350, false).unwrap(), by_ten);
    assert_ne!(by_ten, src);
}
