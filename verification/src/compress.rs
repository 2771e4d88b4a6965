//! The image compressor: resize per the caller's bounds, re-encode, and report
//! what came out.

use vstd::prelude::*;
use vstd::string::StringExecFns;
use crate::codec::{
    allocatable, base64_decoded, base64_encoded, decode_image, decode_transport, encode,
    encode_failure_prefix, encode_transport, exactly_filled, file_written, height_of,
    image_height, image_width, jpeg_sides, jpeg_written, resize_exact, too_large_to_transport,
    transportable, width_of,
};
use crate::error::{prefixed, starts_with, ProcessingError};
use crate::format::{format_named, lemma_webp_is_named, lowered, parse_format, ImageFormat};
use crate::ratio::Ratio;
use crate::resize::{
    lemma_width_bound_keeps_proportion, nearest_scaled, plan_resize, target_size,
};

verus! {

/// What the caller asks of the compressor. Every field may be left out.
#[derive(Debug)]
pub struct ImageCompressionOptions {
    pub max_width: Option<u32>,
    pub max_height: Option<u32>,
    /// From 0 to 100; 85 where left out.
    pub quality: Option<u8>,
    /// `"jpeg"`, `"png"` or `"webp"`; `"jpeg"` where left out.
    pub format: Option<String>,
}

/// The re-encoded image and its measures.
#[derive(Debug)]
pub struct CompressedImageResult {
    /// The image file in the transport encoding.
    pub data: String,
    pub format: String,
    pub width: u32,
    pub height: u32,
    pub size_bytes: usize,
    /// The byte length of the original file over that of the new one.
    pub compression_ratio: Ratio,
}

/// The mathematical content of a `CompressedImageResult`.
pub struct CompressedView {
    pub data: Seq<char>,
    pub format: Seq<char>,
    pub width: u32,
    pub height: u32,
    pub size_bytes: usize,
    pub compression_ratio: Ratio,
}

impl View for CompressedImageResult {
    type V = CompressedView;

    open spec fn view(&self) -> CompressedView {
        CompressedView {
            data: self.data@,
            format: self.format@,
            width: self.width,
            height: self.height,
            size_bytes: self.size_bytes,
            compression_ratio: self.compression_ratio,
        }
    }
}

impl ImageCompressionOptions {
    /// The name of the requested format.
    pub open spec fn format_name(self) -> Seq<char> {
        match self.format {
            Some(name) => name@,
            None => "jpeg"@,
        }
    }

    /// The requested quality.
    pub open spec fn quality_level(self) -> u8 {
        match self.quality {
            Some(q) => q,
            None => 85,
        }
    }

    /// The size that a `width` by `height` raster leaves the resize step with.
    pub open spec fn output_size(self, width: u32, height: u32) -> (u32, u32) {
        match target_size(self.max_width, self.max_height, width, height) {
            Some(size) => size,
            None => (width, height),
        }
    }

    /// These options ask for a JPEG of a `width` by `height` raster that can
    /// be made: the resize fits in memory and leaves sides that a JPEG can
    /// hold.
    pub open spec fn asks_for_jpeg(self, width: u32, height: u32) -> bool {
        &&& format_named(self.format_name()) == Some(ImageFormat::Jpeg)
        &&& self.resizable(width, height)
        &&& jpeg_sides(self.output_size(width, height).0, self.output_size(width, height).1)
    }

    /// The resize that these options ask of a `width` by `height` raster can
    /// be carried out in memory.
    pub open spec fn resizable(self, width: u32, height: u32) -> bool {
        match target_size(self.max_width, self.max_height, width, height) {
            Some((w, h)) => allocatable(width, h) && allocatable(w, h),
            None => true,
        }
    }
}

/// The result for an image file `encoded` of the given format name and size,
/// made from an original of `original_size` bytes.
pub open spec fn compressed_of(
    encoded: Seq<u8>,
    format: Seq<char>,
    width: u32,
    height: u32,
    original_size: usize,
) -> CompressedView {
    CompressedView {
        data: base64_encoded(encoded),
        format,
        width,
        height,
        size_bytes: encoded.len() as usize,
        compression_ratio: Ratio { num: original_size as u128, den: encoded.len() as u128 },
    }
}

/// Wraps up an encoded image file as the result for the caller.
pub fn finish_compression(
    encoded: Vec<u8>,
    format: String,
    width: u32,
    height: u32,
    original_size: usize,
) -> (res: Result<CompressedImageResult, ProcessingError>)
    ensures
        match res {
            Ok(r) => transportable(encoded@.len()) && r@ == compressed_of(
                encoded@,
                format@,
                width,
                height,
                original_size,
            ),
            Err(e) => !transportable(encoded@.len()) && too_large_to_transport(e),
        },
{
    let size_bytes = encoded.len();
    match encode_transport(&encoded) {
        Ok(data) => Ok(
            CompressedImageResult {
                data,
                format,
                width,
                height,
                size_bytes,
                compression_ratio: Ratio::new(original_size as u128, size_bytes as u128),
            },
        ),
        Err(e) => Err(e),
    }
}

/// `res` reports what the codec wrote for the raster `out`: the result for the
/// caller where a file was written and fits the transport encoding, else the
/// failure that says which of the two did not hold. A raster whose buffer is
/// longer than its pixels is not handed to the codec.
pub open spec fn written_outcome(
    res: Result<CompressedImageResult, ProcessingError>,
    out: image::DynamicImage,
    format: ImageFormat,
    options: ImageCompressionOptions,
    original_size: usize,
) -> bool {
    if !exactly_filled(out) {
        res matches Err(ProcessingError::Encode(m)) && m@ == "Raster does not fill its buffer"@
    } else {
        match file_written(out, format, options.quality_level()) {
            Some(file) => file.len() > 0 && if transportable(file.len()) {
                res matches Ok(r) && r@ == compressed_of(
                    file,
                    options.format_name(),
                    image_width(out),
                    image_height(out),
                    original_size,
                )
            } else {
                res matches Err(e) && too_large_to_transport(e)
            },
            None => res matches Err(ProcessingError::Encode(m)) && starts_with(
                m@,
                encode_failure_prefix(format),
            ),
        }
    }
}

/// `out` is a raster that the resize step may hand on for `img`: of the size
/// that the options ask for, and `img` itself where they ask for none.
pub open spec fn resized_as_asked(
    out: image::DynamicImage,
    img: image::DynamicImage,
    options: ImageCompressionOptions,
) -> bool {
    let size = options.output_size(image_width(img), image_height(img));
    &&& image_width(out) == size.0
    &&& image_height(out) == size.1
    &&& match target_size(
        options.max_width,
        options.max_height,
        image_width(img),
        image_height(img),
    ) {
        Some(_) => exactly_filled(out),
        None => out == img,
    }
}

/// `res` is the result of compressing the decoded raster `img`.
///
/// A format name that is not known, or that names WebP, is refused first. Then
/// a resize that does not fit in memory is refused. Otherwise the raster is
/// resized as asked and written at the requested quality, and `res` reports
/// the file.
pub open spec fn compression_outcome(
    res: Result<CompressedImageResult, ProcessingError>,
    options: ImageCompressionOptions,
    img: image::DynamicImage,
    original_size: usize,
) -> bool {
    let name = options.format_name();
    match format_named(name) {
        None => res matches Err(ProcessingError::UnsupportedFormat(m)) && m@
            == "Unsupported format: "@ + name,
        Some(ImageFormat::Webp) => res matches Err(ProcessingError::UnsupportedFormat(m)) && m@
            == "WebP encoding not yet supported"@,
        Some(format) => if !options.resizable(image_width(img), image_height(img)) {
            res matches Err(ProcessingError::Encode(m)) && m@ == "Resized image is too large"@
        } else {
            exists|out: image::DynamicImage|
                resized_as_asked(out, img, options) && #[trigger] written_outcome(
                    res,
                    out,
                    format,
                    options,
                    original_size,
                )
        },
    }
}

/// Tells whether a `width` by `height` raster of the widest pixel type fits in
/// one allocation.
pub fn is_allocatable(width: u32, height: u32) -> (b: bool)
    ensures
        b == allocatable(width, height),
{
    assert(16 * width * height == 16 * (width as int * height as int)) by (nonlinear_arith);
    assert(0 <= width as int * height as int <= 0xffff_ffff * 0xffff_ffff) by (nonlinear_arith)
        requires
            0 <= width <= 0xffff_ffff,
            0 <= height <= 0xffff_ffff,
    ;
    let pixels: u128 = (width as u128) * (height as u128);
    16 * pixels <= isize::MAX as u128
}

/// Compresses a decoded raster whose file had `original_size` bytes.
pub fn compress_decoded(
    img: &image::DynamicImage,
    original_size: usize,
    options: ImageCompressionOptions,
) -> (res: Result<CompressedImageResult, ProcessingError>)
    ensures
        compression_outcome(res, options, *img, original_size),
        res matches Ok(r) ==> r.size_bytes > 0 && r.compression_ratio.den > 0 && (
        r.compression_ratio.positive() <==> original_size > 0),
        options.asks_for_jpeg(image_width(*img), image_height(*img)) && (exactly_filled(*img)
            || options.max_width is Some || options.max_height is Some) ==> res is Ok || (
        res matches Err(e) && too_large_to_transport(e)),
{
    let quality: u8 = match options.quality {
        Some(q) => q,
        None => 85,
    };
    let name: String = match options.format {
        Some(name) => name,
        None => String::from_str("jpeg"),
    };
    let format = match parse_format(name.as_str()) {
        Some(ImageFormat::Webp) => {
            return Err(
                ProcessingError::UnsupportedFormat(
                    String::from_str("WebP encoding not yet supported"),
                ),
            );
        },
        Some(format) => format,
        None => {
            return Err(
                ProcessingError::UnsupportedFormat(
                    prefixed("Unsupported format: ", name.as_str()),
                ),
            );
        },
    };
    let width = width_of(img);
    let height = height_of(img);
    let target = plan_resize(options.max_width, options.max_height, width, height);
    let written = match target {
        Some((w, h)) => {
            if !(is_allocatable(width, h) && is_allocatable(w, h)) {
                return Err(
                    ProcessingError::Encode(String::from_str("Resized image is too large")),
                );
            }
            let resized = resize_exact(img, w, h);
            let written = encode(&resized, format, quality);
            let res = report_written(written, name, w, h, original_size);
            proof {
                assert(resized_as_asked(resized, *img, options));
                assert(written_outcome(res, resized, format, options, original_size));
            }
            return res;
        },
        None => encode(img, format, quality),
    };
    let res = report_written(written, name, width, height, original_size);
    proof {
        assert(resized_as_asked(*img, *img, options));
        assert(written_outcome(res, *img, format, options, original_size));
    }
    res
}

/// Reports an outcome of the encoder: a written file is wrapped up for the
/// caller, a failure is handed on as it is.
pub fn report_written(
    written: Result<Vec<u8>, ProcessingError>,
    format: String,
    width: u32,
    height: u32,
    original_size: usize,
) -> (res: Result<CompressedImageResult, ProcessingError>)
    ensures
        match written {
            Ok(file) => match res {
                Ok(r) => transportable(file@.len()) && r@ == compressed_of(
                    file@,
                    format@,
                    width,
                    height,
                    original_size,
                ),
                Err(e) => !transportable(file@.len()) && too_large_to_transport(e),
            },
            Err(e) => res == Err::<CompressedImageResult, ProcessingError>(e),
        },
{
    match written {
        Ok(file) => finish_compression(file, format, width, height, original_size),
        Err(e) => Err(e),
    }
}

/// Compresses an image given in the transport encoding.
///
/// The payload is decoded first: a malformed payload is a decode error
/// whatever else was asked, and so is a payload that the raster codec does not
/// accept. What is made of a raster is stated by `compression_outcome`.
pub fn compress_image(image_data: String, options: ImageCompressionOptions) -> (res: Result<
    CompressedImageResult,
    ProcessingError,
>)
    ensures
        match base64_decoded(image_data@) {
            None => res matches Err(ProcessingError::Decode(m)) && starts_with(
                m@,
                "Failed to decode base64: "@,
            ),
            Some(bytes) => (res matches Err(ProcessingError::Decode(m)) && starts_with(
                m@,
                "Failed to load image: "@,
            )) || exists|img: image::DynamicImage| #[trigger]
                compression_outcome(res, options, img, bytes.len() as usize),
        },
        format_named(options.format_name()) == Some(ImageFormat::Webp) || format_named(
            options.format_name(),
        ) is None ==> res is Err,
        res matches Ok(r) ==> r.size_bytes > 0 && r.compression_ratio.den > 0
            && r.compression_ratio.positive(),
{
    let bytes = match decode_transport(image_data.as_str()) {
        Ok(bytes) => bytes,
        Err(e) => {
            return Err(e);
        },
    };
    let img = match decode_image(&bytes) {
        Ok(img) => img,
        Err(e) => {
            return Err(e);
        },
    };
    let res = compress_decoded(&img, bytes.len(), options);
    proof {
        assert(compression_outcome(res, options, img, bytes@.len() as usize));
    }
    res
}

/// A request for `"webp"` fails as an unsupported format for every raster,
/// whatever else is asked.
pub proof fn lemma_webp_is_refused(
    res: Result<CompressedImageResult, ProcessingError>,
    options: ImageCompressionOptions,
    img: image::DynamicImage,
    original_size: usize,
)
    requires
        compression_outcome(res, options, img, original_size),
        options.format matches Some(name) && name@ == "webp"@,
    ensures
        res matches Err(ProcessingError::UnsupportedFormat(m)) && m@
            == "WebP encoding not yet supported"@,
{
    reveal_strlit("webp");
    assert(lowered("webp"@) =~= "webp"@);
    lemma_webp_is_named(options.format_name());
}

/// With only a width bound, a result has that width, and its height is the
/// raster's height times `max_width / width`, to the nearest pixel, unless
/// that is more than a raster can have: then it is the largest height there
/// is.
pub proof fn lemma_width_bound_scales_height(
    res: Result<CompressedImageResult, ProcessingError>,
    options: ImageCompressionOptions,
    img: image::DynamicImage,
    original_size: usize,
)
    requires
        compression_outcome(res, options, img, original_size),
        options.max_width is Some,
        options.max_height is None,
        image_width(img) > 0,
        res is Ok,
    ensures
        res->Ok_0.width == options.max_width->0,
        res->Ok_0.height == u32::MAX || -image_width(img) < 2 * (res->Ok_0.height * image_width(
            img,
        ) - image_height(img) * options.max_width->0) <= image_width(img),
{
    if nearest_scaled(image_height(img), options.max_width->0, image_width(img)) <= u32::MAX {
        lemma_width_bound_keeps_proportion(
            options.max_width->0,
            image_width(img),
            image_height(img),
        );
    }
}

/// Without a bound, a request for JPEG succeeds for every raster whose sides a
/// JPEG can hold and whose file fits the transport encoding, and the result
/// has the raster's own size.
pub proof fn lemma_unbounded_jpeg_succeeds(
    res: Result<CompressedImageResult, ProcessingError>,
    options: ImageCompressionOptions,
    img: image::DynamicImage,
    original_size: usize,
)
    requires
        compression_outcome(res, options, img, original_size),
        options.max_width is None,
        options.max_height is None,
        format_named(options.format_name()) == Some(ImageFormat::Jpeg),
        exactly_filled(img),
        jpeg_written(img, options.quality_level()) matches Some(file) && transportable(
            file.len(),
        ),
    ensures
        res matches Ok(r) && r.width == image_width(img) && r.height == image_height(img) && r@
            == compressed_of(
            jpeg_written(img, options.quality_level())->0,
            options.format_name(),
            image_width(img),
            image_height(img),
            original_size,
        ),
{
}

/// Options that leave out quality and format give what a request for quality
/// 85 and `"jpeg"` gives: where no resize is asked for, the two succeed
/// together and report the same file.
pub proof fn lemma_defaults_are_jpeg_at_85(
    res: Result<CompressedImageResult, ProcessingError>,
    explicit: Result<CompressedImageResult, ProcessingError>,
    asked: ImageCompressionOptions,
    img: image::DynamicImage,
    original_size: usize,
)
    requires
        asked.quality == Some(85u8),
        asked.format matches Some(name) && name@ == "jpeg"@,
        asked.max_width is None,
        asked.max_height is None,
        compression_outcome(
            res,
            ImageCompressionOptions {
                max_width: None,
                max_height: None,
                quality: None,
                format: None,
            },
            img,
            original_size,
        ),
        compression_outcome(explicit, asked, img, original_size),
    ensures
        res is Ok <==> explicit is Ok,
        res matches Ok(r) ==> r@ == explicit->Ok_0@ && r.format@ == "jpeg"@ && r.width
            == image_width(img) && r.height == image_height(img),
{
    reveal_strlit("jpeg");
    reveal_strlit("jpg");
    assert(lowered("jpeg"@) =~= "jpeg"@);
}

} // verus!
