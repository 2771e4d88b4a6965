//! Image-quality scoring: brightness from the pixels, sharpness and contrast
//! from placeholder stages, and the advice that follows from the scores.

use vstd::prelude::*;
use vstd::string::StringExecFns;
use crate::codec::{
    base64_decoded, convertible, decode_failure_prefix, decode_image, decode_transport,
    height_of, image_height, image_width, rgb_samples, to_rgb8, width_of,
};
use crate::error::{starts_with, ProcessingError};
use crate::ratio::Ratio;

verus! {

/// The scores of one image and the advice for the user.
#[derive(Debug)]
pub struct ImageQualityResult {
    pub sharpness_score: Ratio,
    pub contrast_score: Ratio,
    pub brightness_score: Ratio,
    pub overall_quality: Ratio,
    pub recommendations: Vec<String>,
}

/// The mathematical content of an `ImageQualityResult`.
pub struct QualityView {
    pub sharpness_score: Ratio,
    pub contrast_score: Ratio,
    pub brightness_score: Ratio,
    pub overall_quality: Ratio,
    pub recommendations: Seq<Seq<char>>,
}

impl View for ImageQualityResult {
    type V = QualityView;

    open spec fn view(&self) -> QualityView {
        QualityView {
            sharpness_score: self.sharpness_score,
            contrast_score: self.contrast_score,
            brightness_score: self.brightness_score,
            overall_quality: self.overall_quality,
            recommendations: self.recommendations.deep_view(),
        }
    }
}

/// The number of whole pixels in a buffer of interleaved red, green and blue
/// samples.
pub open spec fn pixel_count(samples: Seq<u8>) -> nat {
    (samples.len() / 3) as nat
}

/// The brightness of pixel `i`: the mean of its three samples, rounded down.
pub open spec fn pixel_brightness(samples: Seq<u8>, i: int) -> int {
    (samples[3 * i] + samples[3 * i + 1] + samples[3 * i + 2]) / 3
}

/// The brightness of the first `n` pixels, added up.
pub open spec fn brightness_sum(samples: Seq<u8>, n: nat) -> int
    decreases n,
{
    if n == 0 {
        0
    } else {
        brightness_sum(samples, (n - 1) as nat) + pixel_brightness(samples, n - 1)
    }
}

/// The mean brightness over all pixels as a fraction of full brightness. A
/// raster without pixels counts as fully bright.
pub open spec fn brightness_of(samples: Seq<u8>) -> Ratio {
    let n = pixel_count(samples);
    if n == 0 {
        Ratio { num: 1, den: 1 }
    } else {
        Ratio { num: brightness_sum(samples, n) as u128, den: (255 * n) as u128 }
    }
}

/// The sharpness every raster is given until gradients are analysed: 0.7.
pub open spec fn sharpness_of(samples: Seq<u8>) -> Ratio {
    Ratio { num: 7, den: 10 }
}

/// The contrast every raster is given until histograms are analysed: 0.8.
pub open spec fn contrast_of(samples: Seq<u8>) -> Ratio {
    Ratio { num: 4, den: 5 }
}

/// The advice for the given scores: every message whose condition holds, in
/// this order, or the one message that nothing is wrong.
pub open spec fn advice_for(brightness: Ratio, sharpness: Ratio, contrast: Ratio) -> Seq<
    Seq<char>,
> {
    let dark: Seq<Seq<char>> = if brightness.below(Ratio { num: 3, den: 10 }) {
        seq!["too dark, improve lighting"@]
    } else {
        seq![]
    };
    let bright: Seq<Seq<char>> = if brightness.above(Ratio { num: 9, den: 10 }) {
        seq!["possibly overexposed, reduce brightness"@]
    } else {
        seq![]
    };
    let blurry: Seq<Seq<char>> = if sharpness.below(Ratio { num: 1, den: 2 }) {
        seq!["possibly blurry, stabilize camera"@]
    } else {
        seq![]
    };
    let flat: Seq<Seq<char>> = if contrast.below(Ratio { num: 1, den: 2 }) {
        seq!["low contrast, improve lighting"@]
    } else {
        seq![]
    };
    let found = dark + bright + blurry + flat;
    if found.len() == 0 {
        seq!["image quality is good"@]
    } else {
        found
    }
}

/// The scores and the advice for a buffer of interleaved red, green and blue
/// samples.
pub open spec fn quality_of(samples: Seq<u8>) -> QualityView {
    let brightness = brightness_of(samples);
    let sharpness = sharpness_of(samples);
    let contrast = contrast_of(samples);
    QualityView {
        sharpness_score: sharpness,
        contrast_score: contrast,
        brightness_score: brightness,
        overall_quality: Ratio::mean(brightness, sharpness, contrast),
        recommendations: advice_for(brightness, sharpness, contrast),
    }
}

/// No pixel is brighter than 255, so neither is their sum per pixel.
pub proof fn lemma_brightness_sum_bounds(samples: Seq<u8>, n: nat)
    requires
        3 * n <= samples.len(),
    ensures
        0 <= brightness_sum(samples, n) <= 255 * n,
    decreases n,
{
    if n > 0 {
        lemma_brightness_sum_bounds(samples, (n - 1) as nat);
    }
}

/// The brightness score of a raster that fits in memory lies between zero and
/// one.
pub proof fn lemma_brightness_is_unit(samples: Seq<u8>)
    requires
        samples.len() <= usize::MAX,
    ensures
        brightness_of(samples).unit(),
        brightness_of(samples).moderate(),
{
    let n = pixel_count(samples);
    lemma_brightness_sum_bounds(samples, n);
}

/// Every sample of `samples` has the value `value`.
pub open spec fn uniform(samples: Seq<u8>, value: u8) -> bool {
    forall|i: int| 0 <= i < samples.len() ==> samples[i] == value
}

/// In a raster of one value every pixel has that brightness.
pub proof fn lemma_uniform_brightness(samples: Seq<u8>, value: u8, n: nat)
    requires
        uniform(samples, value),
        3 * n <= samples.len(),
    ensures
        brightness_sum(samples, n) == n * value,
    decreases n,
{
    if n > 0 {
        lemma_uniform_brightness(samples, value, (n - 1) as nat);
        assert(pixel_brightness(samples, n - 1) == value);
        assert(n * value == (n - 1) * value + value) by (nonlinear_arith);
    } else {
        assert(n * value == 0) by (nonlinear_arith)
            requires
                n == 0,
        ;
    }
}

/// An all-white raster has the brightness score one and is reported as
/// overexposed.
pub proof fn lemma_white_is_overexposed(samples: Seq<u8>)
    requires
        uniform(samples, 255),
        3 <= samples.len() <= usize::MAX,
    ensures
        quality_of(samples).brightness_score.same_value(Ratio { num: 1, den: 1 }),
        quality_of(samples).recommendations == seq!["possibly overexposed, reduce brightness"@],
{
    let n = pixel_count(samples);
    lemma_uniform_brightness(samples, 255, n);
    let found = seq!["possibly overexposed, reduce brightness"@];
    assert(Seq::<Seq<char>>::empty() + found + Seq::<Seq<char>>::empty() + Seq::<
        Seq<char>,
    >::empty() =~= found);
}

/// An all-black raster has the brightness score zero and is reported as too
/// dark.
pub proof fn lemma_black_is_too_dark(samples: Seq<u8>)
    requires
        uniform(samples, 0),
        3 <= samples.len() <= usize::MAX,
    ensures
        quality_of(samples).brightness_score.num == 0,
        quality_of(samples).recommendations == seq!["too dark, improve lighting"@],
{
    let n = pixel_count(samples);
    lemma_uniform_brightness(samples, 0, n);
    let found = seq!["too dark, improve lighting"@];
    assert(found + Seq::<Seq<char>>::empty() + Seq::<Seq<char>>::empty() + Seq::<
        Seq<char>,
    >::empty() =~= found);
}

/// A raster of the middle gray, 128, triggers no advice but that all is well.
pub proof fn lemma_mid_gray_is_good(samples: Seq<u8>)
    requires
        uniform(samples, 128),
        3 <= samples.len() <= usize::MAX,
    ensures
        quality_of(samples).brightness_score.same_value(Ratio { num: 128, den: 255 }),
        quality_of(samples).recommendations == seq!["image quality is good"@],
{
    let n = pixel_count(samples);
    lemma_uniform_brightness(samples, 128, n);
    assert(Seq::<Seq<char>>::empty() + Seq::<Seq<char>>::empty() + Seq::<Seq<char>>::empty()
        + Seq::<Seq<char>>::empty() =~= Seq::<Seq<char>>::empty());
}

/// Adds up the brightness of all pixels.
pub fn total_brightness(samples: &Vec<u8>) -> (total: u128)
    ensures
        total == brightness_sum(samples@, pixel_count(samples@)),
{
    let n: usize = samples.len() / 3;
    let mut total: u128 = 0;
    let mut i: usize = 0;
    while i < n
        invariant
            i <= n,
            n == pixel_count(samples@),
            3 * n <= samples.len(),
            total == brightness_sum(samples@, i as nat),
            total <= 255 * i,
        decreases n - i,
    {
        let r: u32 = samples[3 * i] as u32;
        let g: u32 = samples[3 * i + 1] as u32;
        let b: u32 = samples[3 * i + 2] as u32;
        total = total + ((r + g + b) / 3) as u128;
        i += 1;
    }
    total
}

/// Scores the brightness of a raster.
pub fn brightness_score(samples: &Vec<u8>) -> (score: Ratio)
    ensures
        score == brightness_of(samples@),
        score.unit(),
        score.moderate(),
{
    let n: usize = samples.len() / 3;
    proof {
        lemma_brightness_is_unit(samples@);
        lemma_brightness_sum_bounds(samples@, pixel_count(samples@));
    }
    if n == 0 {
        Ratio::new(1, 1)
    } else {
        let total = total_brightness(samples);
        Ratio::new(total, 255 * (n as u128))
    }
}

/// Scores the sharpness of a raster.
pub fn sharpness_score(samples: &Vec<u8>) -> (score: Ratio)
    ensures
        score == sharpness_of(samples@),
{
    Ratio::new(7, 10)
}

/// Scores the contrast of a raster.
pub fn contrast_score(samples: &Vec<u8>) -> (score: Ratio)
    ensures
        score == contrast_of(samples@),
{
    Ratio::new(4, 5)
}

/// Writes the advice for the given scores.
pub fn recommend(brightness: &Ratio, sharpness: &Ratio, contrast: &Ratio) -> (advice: Vec<String>)
    requires
        brightness.moderate(),
        sharpness.moderate(),
        contrast.moderate(),
    ensures
        advice.deep_view() == advice_for(*brightness, *sharpness, *contrast),
        advice.len() > 0,
{
    let mut advice: Vec<String> = Vec::new();
    let ghost mut found: Seq<Seq<char>> = seq![];
    assert(advice.deep_view() =~= found);
    if brightness.is_below(&Ratio::new(3, 10)) {
        advice.push(String::from_str("too dark, improve lighting"));
        proof {
            found = found.push("too dark, improve lighting"@);
        }
        assert(advice.deep_view() =~= found);
    }
    if brightness.is_above(&Ratio::new(9, 10)) {
        advice.push(String::from_str("possibly overexposed, reduce brightness"));
        proof {
            found = found.push("possibly overexposed, reduce brightness"@);
        }
        assert(advice.deep_view() =~= found);
    }
    if sharpness.is_below(&Ratio::new(1, 2)) {
        advice.push(String::from_str("possibly blurry, stabilize camera"));
        proof {
            found = found.push("possibly blurry, stabilize camera"@);
        }
        assert(advice.deep_view() =~= found);
    }
    if contrast.is_below(&Ratio::new(1, 2)) {
        advice.push(String::from_str("low contrast, improve lighting"));
        proof {
            found = found.push("low contrast, improve lighting"@);
        }
        assert(advice.deep_view() =~= found);
    }
    if advice.len() == 0 {
        advice.push(String::from_str("image quality is good"));
        assert(advice.deep_view() =~= seq!["image quality is good"@]);
    }
    assert(advice.deep_view() =~= advice_for(*brightness, *sharpness, *contrast));
    advice
}

/// Scores a raster given as interleaved red, green and blue samples.
pub fn assess_quality(samples: &Vec<u8>) -> (r: ImageQualityResult)
    ensures
        r@ == quality_of(samples@),
        r.overall_quality.is_mean_of(r.brightness_score, r.sharpness_score, r.contrast_score),
        r.brightness_score.unit(),
        r.recommendations.len() > 0,
{
    let brightness = brightness_score(samples);
    let sharpness = sharpness_score(samples);
    let contrast = contrast_score(samples);
    let overall = Ratio::mean_of_three(&brightness, &sharpness, &contrast);
    let recommendations = recommend(&brightness, &sharpness, &contrast);
    ImageQualityResult {
        sharpness_score: sharpness,
        contrast_score: contrast,
        brightness_score: brightness,
        overall_quality: overall,
        recommendations,
    }
}

/// Tells whether the three samples per pixel of a `width` by `height` raster
/// fit in one allocation.
pub fn is_convertible(width: u32, height: u32) -> (b: bool)
    ensures
        b == convertible(width, height),
{
    assert(3 * width * height == 3 * (width as int * height as int)) by (nonlinear_arith);
    assert(0 <= width as int * height as int <= 0xffff_ffff * 0xffff_ffff) by (nonlinear_arith)
        requires
            0 <= width <= 0xffff_ffff,
            0 <= height <= 0xffff_ffff,
    ;
    let pixels: u128 = (width as u128) * (height as u128);
    3 * pixels <= isize::MAX as u128
}

/// `res` is the result of scoring the decoded raster `img`: the scores of its
/// pixels as three 8-bit colour channels, or a decode error where those do not
/// fit in memory.
pub open spec fn analysis_outcome(
    res: Result<ImageQualityResult, ProcessingError>,
    img: image::DynamicImage,
) -> bool {
    if convertible(image_width(img), image_height(img)) {
        res matches Ok(r) && r@ == quality_of(rgb_samples(img))
    } else {
        res matches Err(ProcessingError::Decode(m)) && m@ == "Image is too large to analyze"@
    }
}

/// Scores a decoded raster: its pixels are converted to three 8-bit colour
/// channels and handed to `assess_quality`.
pub fn analyze_decoded(img: &image::DynamicImage) -> (res: Result<
    ImageQualityResult,
    ProcessingError,
>)
    ensures
        analysis_outcome(res, *img),
        res matches Ok(r) ==> {
            &&& rgb_samples(*img).len() == 3 * image_width(*img) * image_height(*img)
            &&& pixel_count(rgb_samples(*img)) == image_width(*img) * image_height(*img)
            &&& r.overall_quality.is_mean_of(
                r.brightness_score,
                r.sharpness_score,
                r.contrast_score,
            )
            &&& r.brightness_score.unit()
            &&& r.recommendations.len() > 0
        },
{
    if !is_convertible(width_of(img), height_of(img)) {
        return Err(ProcessingError::Decode(String::from_str("Image is too large to analyze")));
    }
    let samples = to_rgb8(img);
    proof {
        let pixels = image_width(*img) as int * image_height(*img) as int;
        assert(3 * image_width(*img) * image_height(*img) == 3 * pixels) by (nonlinear_arith)
            requires
                pixels == image_width(*img) as int * image_height(*img) as int,
        ;
        assert(image_width(*img) * image_height(*img) == pixels);
    }
    Ok(assess_quality(&samples))
}

/// Scores an image given in the transport encoding.
///
/// A malformed payload is a decode error, and so is a payload that the raster
/// codec does not accept. What is reported of a raster is stated by
/// `analysis_outcome`.
pub fn analyze_image_quality(image_data: String) -> (res: Result<
    ImageQualityResult,
    ProcessingError,
>)
    ensures
        match res {
            Ok(r) => {
                &&& base64_decoded(image_data@) is Some
                &&& exists|img: image::DynamicImage| #[trigger] analysis_outcome(res, img)
                &&& r.overall_quality.is_mean_of(
                    r.brightness_score,
                    r.sharpness_score,
                    r.contrast_score,
                )
                &&& r.brightness_score.unit()
                &&& r.recommendations.len() > 0
            },
            Err(e) => e is Decode && (starts_with(e.text(), decode_failure_prefix(image_data@))
                || e.text() == "Image is too large to analyze"@),
        },
{
    let bytes = match decode_transport(image_data.as_str()) {
        Ok(bytes) => bytes,
        Err(e) => {
            return Err(e);
        },
    };
    let img = match decode_image(&bytes) {
        Ok(img) => img,
        Err(e) => {
            return Err(e);
        },
    };
    let res = analyze_decoded(&img);
    assert(analysis_outcome(res, img));
    res
}

} // verus!
