//! The codec gateway: the transport encoding and the raster codecs.
//!
//! Everything here that is marked `external_body` is believed, not proved: each
//! states what the named function of the `base64` or `image` crate does.

use vstd::prelude::*;
use vstd::string::StringExecFns;
use base64::Engine;
use crate::error::{prefixed, starts_with, ProcessingError};
use crate::format::ImageFormat;

verus! {

/// A decoded raster of the `image` crate, carried through as an opaque value.
#[verifier::external_type_specification]
#[verifier::external_body]
pub struct ExDynamicImage(image::DynamicImage);

/// The error of the `image` crate's codecs.
#[verifier::external_type_specification]
#[verifier::external_body]
pub struct ExImageError(image::ImageError);

/// The error of the `base64` crate's decoder.
#[verifier::external_type_specification]
#[verifier::external_body]
pub struct ExDecodeError(base64::DecodeError);

/// The bytes that standard, padded base64 text stands for, or `None` where the
/// text is not well-formed: what `Engine::decode` of `base64`'s `STANDARD`
/// engine returns.
pub uninterp spec fn base64_decoded(text: Seq<char>) -> Option<Seq<u8>>;

/// The standard, padded base64 text for `bytes`: what `Engine::encode` of
/// `base64`'s `STANDARD` engine returns.
pub uninterp spec fn base64_encoded(bytes: Seq<u8>) -> Seq<char>;

/// The width in pixels that `image::DynamicImage::width` reports.
pub uninterp spec fn image_width(img: image::DynamicImage) -> u32;

/// The height in pixels that `image::DynamicImage::height` reports.
pub uninterp spec fn image_height(img: image::DynamicImage) -> u32;

/// The JPEG file for a raster at a quality, or `None` where the codec refuses
/// the raster: what `DynamicImage::write_with_encoder` writes through a
/// `JpegEncoder::new_with_quality`.
pub uninterp spec fn jpeg_written(img: image::DynamicImage, quality: u8) -> Option<Seq<u8>>;

/// The PNG file for a raster, or `None` where the codec refuses the raster:
/// what `DynamicImage::write_with_encoder` writes through a `PngEncoder::new`.
pub uninterp spec fn png_written(img: image::DynamicImage) -> Option<Seq<u8>>;

/// The raster as three 8-bit samples per pixel, row by row: the pixels of what
/// `DynamicImage::to_rgb8` returns.
pub uninterp spec fn rgb_samples(img: image::DynamicImage) -> Seq<u8>;

/// The length in bytes of the raster's sample buffer: the length of what
/// `image::DynamicImage::as_bytes` returns.
pub uninterp spec fn image_byte_length(img: image::DynamicImage) -> usize;

/// The number of bytes that one pixel of the raster takes: what
/// `image::ColorType::bytes_per_pixel` gives for `image::DynamicImage::color`.
pub uninterp spec fn image_pixel_bytes(img: image::DynamicImage) -> u8;

/// The raster's sample buffer holds its pixels and nothing more. Only such a
/// raster can be handed to an encoder.
pub open spec fn exactly_filled(img: image::DynamicImage) -> bool {
    image_byte_length(img) == image_width(img) * image_height(img) * image_pixel_bytes(img)
}

/// Both sides lie within what a JPEG file can hold.
pub open spec fn jpeg_sides(width: u32, height: u32) -> bool {
    1 <= width <= 65535 && 1 <= height <= 65535
}

/// The file that the codec writes for a raster in a format, or `None` where it
/// writes none. WebP is never written.
pub open spec fn file_written(img: image::DynamicImage, format: ImageFormat, quality: u8) -> Option<
    Seq<u8>,
> {
    match format {
        ImageFormat::Jpeg => jpeg_written(img, quality),
        ImageFormat::Png => png_written(img),
        ImageFormat::Webp => None,
    }
}

/// The longest payload whose base64 text still fits in one allocation.
pub open spec fn transportable(len: nat) -> bool {
    4 * ((len + 2) / 3) <= isize::MAX
}

/// A `width` by `height` raster of the widest pixel type (four 32-bit
/// channels) fits in one allocation.
pub open spec fn allocatable(width: u32, height: u32) -> bool {
    16 * width * height <= isize::MAX
}

/// The three 8-bit samples per pixel of a `width` by `height` raster fit in one
/// allocation.
pub open spec fn convertible(width: u32, height: u32) -> bool {
    3 * width * height <= isize::MAX
}

/// `Engine::decode` on `base64::engine::general_purpose::STANDARD`: the decoded
/// bytes, or the decoder's error where the text is not well-formed.
#[verifier::external_body]
pub(crate) fn base64_decode(text: &str) -> (res: Result<Vec<u8>, base64::DecodeError>)
    ensures
        match res {
            Ok(bytes) => base64_decoded(text@) == Some(bytes@),
            Err(_) => base64_decoded(text@) is None,
        },
{
    base64::engine::general_purpose::STANDARD.decode(text)
}

/// `Engine::encode` on `base64::engine::general_purpose::STANDARD`: the text
/// for `bytes`. The call panics where the text would not fit in one
/// allocation, which the precondition rules out.
#[verifier::external_body]
pub(crate) fn base64_encode(bytes: &Vec<u8>) -> (text: String)
    requires
        transportable(bytes@.len()),
    ensures
        text@ == base64_encoded(bytes@),
{
    base64::engine::general_purpose::STANDARD.encode(bytes)
}

/// `image::load_from_memory`: the raster that the bytes hold, or the codec's
/// error. Which bytes load depends on the decoders registered in the process,
/// so nothing is claimed of the outcome.
#[verifier::external_body]
pub(crate) fn load_from_memory(bytes: &Vec<u8>) -> (res: Result<
    image::DynamicImage,
    image::ImageError,
>) {
    image::load_from_memory(bytes)
}

/// `image::DynamicImage::width`.
#[verifier::external_body]
pub(crate) fn width_of(img: &image::DynamicImage) -> (w: u32)
    ensures
        w == image_width(*img),
{
    img.width()
}

/// `image::DynamicImage::height`.
#[verifier::external_body]
pub(crate) fn height_of(img: &image::DynamicImage) -> (h: u32)
    ensures
        h == image_height(*img),
{
    img.height()
}

/// `image::DynamicImage::as_bytes`, of which only the length is handed out.
#[verifier::external_body]
pub(crate) fn byte_length_of(img: &image::DynamicImage) -> (n: usize)
    ensures
        n == image_byte_length(*img),
{
    img.as_bytes().len()
}

/// `image::ColorType::bytes_per_pixel` on `image::DynamicImage::color`.
#[verifier::external_body]
pub(crate) fn pixel_bytes_of(img: &image::DynamicImage) -> (n: u8)
    ensures
        n == image_pixel_bytes(*img),
{
    img.color().bytes_per_pixel()
}

/// `image::DynamicImage::resize_exact` with the Lanczos filter of three lobes:
/// a new raster of exactly the given size, in a buffer made for that size.
/// The call panics where a working buffer of the source's width or of the new
/// width, and of the new height, does not fit in one allocation; the
/// precondition rules that out.
#[verifier::external_body]
pub(crate) fn resize_exact(img: &image::DynamicImage, width: u32, height: u32) -> (out:
    image::DynamicImage)
    requires
        allocatable(image_width(*img), height),
        allocatable(width, height),
    ensures
        image_width(out) == width,
        image_height(out) == height,
        exactly_filled(out),
{
    img.resize_exact(width, height, image::imageops::FilterType::Lanczos3)
}

/// `image::DynamicImage::write_with_encoder` with a
/// `JpegEncoder::new_with_quality`: the JPEG file, or the codec's error. The
/// codec refuses a raster exactly where a side is zero or above 65535, and a
/// file it writes begins with the start-of-image marker, so it is never empty.
/// The call panics on a raster whose buffer is longer than its pixels, which
/// the precondition rules out.
#[verifier::external_body]
pub(crate) fn write_jpeg(img: &image::DynamicImage, quality: u8) -> (res: Result<
    Vec<u8>,
    image::ImageError,
>)
    requires
        exactly_filled(*img),
    ensures
        match res {
            Ok(out) => jpeg_written(*img, quality) == Some(out@) && out@.len() > 0,
            Err(_) => jpeg_written(*img, quality) is None,
        },
        res is Ok <==> jpeg_sides(image_width(*img), image_height(*img)),
{
    let mut out = Vec::new();
    img.write_with_encoder(image::codecs::jpeg::JpegEncoder::new_with_quality(&mut out, quality))?;
    Ok(out)
}

/// `image::DynamicImage::write_with_encoder` with a `PngEncoder::new`: the PNG
/// file, or the codec's error. A file it writes begins with the PNG signature,
/// so it is never empty. The call panics on a raster whose buffer is longer
/// than its pixels, which the precondition rules out.
#[verifier::external_body]
pub(crate) fn write_png(img: &image::DynamicImage) -> (res: Result<Vec<u8>, image::ImageError>)
    requires
        exactly_filled(*img),
    ensures
        match res {
            Ok(out) => png_written(*img) == Some(out@) && out@.len() > 0,
            Err(_) => png_written(*img) is None,
        },
{
    let mut out = Vec::new();
    img.write_with_encoder(image::codecs::png::PngEncoder::new(&mut out))?;
    Ok(out)
}

/// `image::DynamicImage::to_rgb8`, and `pixels` on the copy it returns: the
/// three 8-bit samples of every pixel, row by row. The calls panic where that
/// many samples do not fit in one allocation, which the precondition rules out.
#[verifier::external_body]
pub(crate) fn to_rgb8(img: &image::DynamicImage) -> (samples: Vec<u8>)
    requires
        convertible(image_width(*img), image_height(*img)),
    ensures
        samples@ == rgb_samples(*img),
        samples@.len() == 3 * image_width(*img) * image_height(*img),
{
    img.to_rgb8().pixels().flat_map(|p| p.0).collect()
}

/// The `Display` text of a `base64::DecodeError`.
#[verifier::external_body]
pub(crate) fn decode_error_text(e: &base64::DecodeError) -> (text: String) {
    format!("{}", e)
}

/// The `Display` text of an `image::ImageError`.
#[verifier::external_body]
pub(crate) fn image_error_text(e: &image::ImageError) -> (text: String) {
    format!("{}", e)
}

/// How the message of a decode failure begins: a payload that is not
/// well-formed fails as such, any other has failed in the raster codec.
pub open spec fn decode_failure_prefix(image_data: Seq<char>) -> Seq<char> {
    if base64_decoded(image_data) is None {
        "Failed to decode base64: "@
    } else {
        "Failed to load image: "@
    }
}

/// Decodes the transport encoding of an image file.
pub fn decode_transport(image_data: &str) -> (res: Result<Vec<u8>, ProcessingError>)
    ensures
        match base64_decoded(image_data@) {
            Some(bytes) => res matches Ok(v) && v@ == bytes,
            None => res matches Err(ProcessingError::Decode(m)) && starts_with(
                m@,
                "Failed to decode base64: "@,
            ),
        },
{
    match base64_decode(image_data) {
        Ok(bytes) => Ok(bytes),
        Err(e) => {
            let detail = decode_error_text(&e);
            Err(ProcessingError::Decode(prefixed("Failed to decode base64: ", detail.as_str())))
        },
    }
}

/// Tells whether a payload of `len` bytes can be put into the transport
/// encoding.
pub fn is_transportable(len: usize) -> (b: bool)
    ensures
        b == transportable(len as nat),
{
    len <= (isize::MAX as usize) / 4 * 3
}

/// `e` is the failure reported for a file that is too long for the transport
/// encoding.
pub open spec fn too_large_to_transport(e: ProcessingError) -> bool {
    e is Encode && e.text() == "Encoded image is too large to transport"@
}

/// Puts an image file into the transport encoding.
pub fn encode_transport(bytes: &Vec<u8>) -> (res: Result<String, ProcessingError>)
    ensures
        match res {
            Ok(text) => transportable(bytes@.len()) && text@ == base64_encoded(bytes@),
            Err(e) => !transportable(bytes@.len()) && too_large_to_transport(e),
        },
{
    if is_transportable(bytes.len()) {
        Ok(base64_encode(bytes))
    } else {
        Err(ProcessingError::Encode(String::from_str("Encoded image is too large to transport")))
    }
}

/// Reports what the raster codec made of a file: the raster it gave, as it is,
/// or its refusal as a decode error.
pub fn report_loaded(loaded: Result<image::DynamicImage, image::ImageError>) -> (res: Result<
    image::DynamicImage,
    ProcessingError,
>)
    ensures
        match loaded {
            Ok(img) => res matches Ok(out) && out == img,
            Err(_) => res matches Err(ProcessingError::Decode(m)) && starts_with(
                m@,
                "Failed to load image: "@,
            ),
        },
{
    match loaded {
        Ok(img) => Ok(img),
        Err(e) => {
            let detail = image_error_text(&e);
            Err(ProcessingError::Decode(prefixed("Failed to load image: ", detail.as_str())))
        },
    }
}

/// Decodes an image file into a raster. An empty file holds no image and is
/// refused at once. Which other files decode, and into what, is the codec's
/// decision: the file goes to the codec as it is, and what comes back is
/// reported by `report_loaded`.
pub fn decode_image(bytes: &Vec<u8>) -> (res: Result<image::DynamicImage, ProcessingError>)
    ensures
        res matches Err(e) ==> (e matches ProcessingError::Decode(m) && starts_with(
            m@,
            "Failed to load image: "@,
        )),
        bytes@.len() == 0 ==> (res matches Err(e) && e.text() == "Failed to load image: "@
            + "the file is empty"@),
{
    if bytes.len() == 0 {
        return Err(
            ProcessingError::Decode(prefixed("Failed to load image: ", "the file is empty")),
        );
    }
    report_loaded(load_from_memory(bytes))
}

/// Tells whether the raster's sample buffer holds its pixels and nothing more.
pub fn is_exactly_filled(img: &image::DynamicImage) -> (b: bool)
    ensures
        b == exactly_filled(*img),
{
    let width = width_of(img);
    let height = height_of(img);
    let pixel_bytes = pixel_bytes_of(img);
    assert(width * height * pixel_bytes == (width as int * height as int) * pixel_bytes as int)
        by (nonlinear_arith);
    assert(0 <= width as int * height as int <= 0xffff_ffff * 0xffff_ffff) by (nonlinear_arith)
        requires
            0 <= width <= 0xffff_ffff,
            0 <= height <= 0xffff_ffff,
    ;
    assert(0 <= (width as int * height as int) * pixel_bytes as int <= 0xffff_ffff * 0xffff_ffff
        * 255) by (nonlinear_arith)
        requires
            0 <= width as int * height as int <= 0xffff_ffff * 0xffff_ffff,
            0 <= pixel_bytes <= 255,
    ;
    let pixels: u128 = (width as u128) * (height as u128);
    byte_length_of(img) as u128 == pixels * (pixel_bytes as u128)
}

/// The message with which a codec's refusal to write `format` is reported
/// begins.
pub open spec fn encode_failure_prefix(format: ImageFormat) -> Seq<char> {
    match format {
        ImageFormat::Jpeg => "Failed to encode JPEG: "@,
        ImageFormat::Png => "Failed to encode PNG: "@,
        ImageFormat::Webp => "WebP encoding not yet supported"@,
    }
}

/// `res` reports what the codec made of the raster in a format that can be
/// written: the file, or an encode error where the codec refuses the raster. A
/// raster whose buffer is longer than its pixels is not handed to the codec.
pub open spec fn encode_outcome(
    res: Result<Vec<u8>, ProcessingError>,
    img: image::DynamicImage,
    format: ImageFormat,
    quality: u8,
) -> bool {
    if !exactly_filled(img) {
        res matches Err(ProcessingError::Encode(m)) && m@ == "Raster does not fill its buffer"@
    } else {
        match file_written(img, format, quality) {
            Some(file) => res matches Ok(v) && v@ == file && file.len() > 0,
            None => res matches Err(ProcessingError::Encode(m)) && starts_with(
                m@,
                encode_failure_prefix(format),
            ),
        }
    }
}

/// Encodes a raster as a file of the given format. WebP is never written. A
/// JPEG is written exactly of a raster whose sides a JPEG can hold.
pub fn encode(img: &image::DynamicImage, format: ImageFormat, quality: u8) -> (res: Result<
    Vec<u8>,
    ProcessingError,
>)
    ensures
        format == ImageFormat::Webp ==> (res matches Err(ProcessingError::UnsupportedFormat(m))
            && m@ == "WebP encoding not yet supported"@),
        format != ImageFormat::Webp ==> encode_outcome(res, *img, format, quality),
        format == ImageFormat::Jpeg && exactly_filled(*img) ==> (res is Ok <==> jpeg_sides(
            image_width(*img),
            image_height(*img),
        )),
{
    if format != ImageFormat::Webp && !is_exactly_filled(img) {
        return Err(ProcessingError::Encode(String::from_str("Raster does not fill its buffer")));
    }
    match format {
        ImageFormat::Jpeg => match write_jpeg(img, quality) {
            Ok(out) => Ok(out),
            Err(e) => {
                let detail = image_error_text(&e);
                Err(ProcessingError::Encode(prefixed("Failed to encode JPEG: ", detail.as_str())))
            },
        },
        ImageFormat::Png => match write_png(img) {
            Ok(out) => Ok(out),
            Err(e) => {
                let detail = image_error_text(&e);
                Err(ProcessingError::Encode(prefixed("Failed to encode PNG: ", detail.as_str())))
            },
        },
        ImageFormat::Webp => Err(
            ProcessingError::UnsupportedFormat(String::from_str("WebP encoding not yet supported")),
        ),
    }
}

} // verus!
