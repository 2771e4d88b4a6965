//! The receipt-boundary heuristic.
//!
//! This is a placeholder for real contour extraction: it looks at the shape of
//! the frame only, and where the frame is receipt-like it reports the whole
//! frame as the receipt.

use vstd::prelude::*;
use crate::codec::{
    base64_decoded, decode_failure_prefix, decode_image, decode_transport, height_of,
    image_height, image_width, width_of,
};
use crate::error::{starts_with, ProcessingError};
use crate::ratio::Ratio;

verus! {

/// What the detector reports for one image.
#[derive(Debug)]
pub struct ReceiptContourResult {
    pub detected: bool,
    pub confidence: Ratio,
    /// The four corners as `(x, y)`, clockwise from the top left.
    pub corners: Option<Vec<(u32, u32)>>,
    /// `(x, y, width, height)`.
    pub bounding_box: Option<(u32, u32, u32, u32)>,
    /// In degrees.
    pub angle: Option<i32>,
}

/// The mathematical content of a `ReceiptContourResult`.
pub struct ContourView {
    pub detected: bool,
    pub confidence: Ratio,
    pub corners: Option<Seq<(u32, u32)>>,
    pub bounding_box: Option<(u32, u32, u32, u32)>,
    pub angle: Option<i32>,
}

impl View for ReceiptContourResult {
    type V = ContourView;

    open spec fn view(&self) -> ContourView {
        ContourView {
            detected: self.detected,
            confidence: self.confidence,
            corners: match self.corners {
                Some(c) => Some(c@),
                None => None,
            },
            bounding_box: self.bounding_box,
            angle: self.angle,
        }
    }
}

/// The aspect ratio `width / height` lies strictly between 1.5 and 4.
pub open spec fn receipt_like(width: u32, height: u32) -> bool {
    2 * width > 3 * height && width < 4 * height
}

/// The confidence reported with a detection: 0.8.
pub open spec fn detected_confidence() -> Ratio {
    Ratio { num: 4, den: 5 }
}

/// The confidence reported without a detection: 0.2.
pub open spec fn undetected_confidence() -> Ratio {
    Ratio { num: 1, den: 5 }
}

/// The corners of a `width` by `height` frame, clockwise from the top left.
pub open spec fn frame_corners(width: u32, height: u32) -> Seq<(u32, u32)> {
    seq![(0u32, 0u32), (width, 0u32), (width, height), (0u32, height)]
}

/// What the detector reports for a `width` by `height` frame.
pub open spec fn contour_of(width: u32, height: u32) -> ContourView {
    if receipt_like(width, height) {
        ContourView {
            detected: true,
            confidence: detected_confidence(),
            corners: Some(frame_corners(width, height)),
            bounding_box: Some((0u32, 0u32, width, height)),
            angle: Some(0i32),
        }
    } else {
        ContourView {
            detected: false,
            confidence: undetected_confidence(),
            corners: None,
            bounding_box: None,
            angle: None,
        }
    }
}

/// Tells whether a `width` by `height` frame has the shape of a receipt.
pub fn is_receipt_like(width: u32, height: u32) -> (b: bool)
    ensures
        b == receipt_like(width, height),
{
    let w: u64 = width as u64;
    let h: u64 = height as u64;
    2 * w > 3 * h && w < 4 * h
}

/// Reports the contour for a `width` by `height` frame.
pub fn classify_contour(width: u32, height: u32) -> (r: ReceiptContourResult)
    ensures
        r@ == contour_of(width, height),
        r.corners is Some <==> r.detected,
        r.bounding_box is Some <==> r.detected,
{
    if is_receipt_like(width, height) {
        let mut corners: Vec<(u32, u32)> = Vec::new();
        corners.push((0, 0));
        corners.push((width, 0));
        corners.push((width, height));
        corners.push((0, height));
        assert(corners@ =~= frame_corners(width, height));
        ReceiptContourResult {
            detected: true,
            confidence: Ratio::new(4, 5),
            corners: Some(corners),
            bounding_box: Some((0, 0, width, height)),
            angle: Some(0),
        }
    } else {
        ReceiptContourResult {
            detected: false,
            confidence: Ratio::new(1, 5),
            corners: None,
            bounding_box: None,
            angle: None,
        }
    }
}

/// Reports the contour for a decoded raster. Only the size of the frame is
/// looked at, which a conversion to three colour channels leaves as it is.
pub fn detect_decoded(img: &image::DynamicImage) -> (r: ReceiptContourResult)
    ensures
        r@ == contour_of(image_width(*img), image_height(*img)),
        r.corners is Some <==> r.detected,
        r.bounding_box is Some <==> r.detected,
{
    classify_contour(width_of(img), height_of(img))
}

/// Reports the contour for an image given in the transport encoding.
///
/// A malformed payload is a decode error, and so is a payload that the codec
/// does not accept. Otherwise the report is that of `contour_of` for the size
/// the codec found.
pub fn detect_receipt_contour(image_data: String) -> (res: Result<
    ReceiptContourResult,
    ProcessingError,
>)
    ensures
        match res {
            Ok(r) => {
                &&& base64_decoded(image_data@) is Some
                &&& exists|width: u32, height: u32| r@ == #[trigger] contour_of(width, height)
                &&& r.corners is Some <==> r.detected
                &&& r.bounding_box is Some <==> r.detected
            },
            Err(e) => e is Decode && starts_with(e.text(), decode_failure_prefix(image_data@)),
        },
{
    let bytes = match decode_transport(image_data.as_str()) {
        Ok(bytes) => bytes,
        Err(e) => {
            return Err(e);
        },
    };
    let img = match decode_image(&bytes) {
        Ok(img) => img,
        Err(e) => {
            return Err(e);
        },
    };
    let r = detect_decoded(&img);
    assert(r@ == contour_of(image_width(img), image_height(img)));
    Ok(r)
}

} // verus!
