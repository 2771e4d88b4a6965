use base64::Engine;
use receipt_imaging::codec::{
    decode_image, decode_transport, encode, encode_transport, is_exactly_filled,
    is_transportable, report_loaded,
};
use receipt_imaging::compress::{
    compress_decoded, finish_compression, is_allocatable, report_written,
};
use receipt_imaging::contour::detect_decoded;
use receipt_imaging::format::ImageFormat;
use receipt_imaging::quality::{analyze_decoded, assess_quality, is_convertible};
use receipt_imaging::{
    analyze_image_quality, compress_image, detect_receipt_contour, ImageCompressionOptions,
    ProcessingError, Ratio,
};

fn to_transport(bytes: &[u8]) -> String {
    base64::engine::general_purpose::STANDARD.encode(bytes)
}

fn from_transport(text: &str) -> Vec<u8> {
    base64::engine::general_purpose::STANDARD.decode(text).unwrap()
}

fn png_file(img: &image::DynamicImage) -> Vec<u8> {
    let mut out = Vec::new();
    img.write_with_encoder(image::codecs::png::PngEncoder::new(&mut out)).unwrap();
    out
}

fn uniform(width: u32, height: u32, value: u8) -> image::DynamicImage {
    image::DynamicImage::ImageRgb8(image::RgbImage::from_pixel(
        width,
        height,
        image::Rgb([value, value, value]),
    ))
}

fn photographic(width: u32, height: u32) -> image::DynamicImage {
    let mut state: u32 = 12345;
    image::DynamicImage::ImageRgb8(image::RgbImage::from_fn(width, height, |x, y| {
        state = state.wrapping_mul(1664525).wrapping_add(1013904223);
        let noise = (state >> 24) as u8 / 8;
        let base = ((x * 3 + y * 2) % 200) as u8;
        image::Rgb([base + noise, base / 2 + noise, 255 - base - noise])
    }))
}

fn options(
    max_width: Option<u32>,
    max_height: Option<u32>,
    quality: Option<u8>,
    format: Option<&str>,
) -> ImageCompressionOptions {
    ImageCompressionOptions {
        max_width,
        max_height,
        quality,
        format: format.map(|f| f.to_string()),
    }
}

fn message_of<T: std::fmt::Debug>(res: Result<T, ProcessingError>) -> String {
    res.unwrap_err().message()
}

#[test]
fn transport_decoding_gives_the_bytes() {
    assert_eq!(decode_transport("aGVsbG8=").unwrap(), b"hello".to_vec());
    assert_eq!(decode_transport("").unwrap(), Vec::<u8>::new());
    assert_eq!(decode_transport("AAEC/w==").unwrap(), vec![0, 1, 2, 255]);
}

#[test]
fn malformed_transport_text_is_a_decode_error() {
    let e = decode_transport("not base64!").unwrap_err();
    assert!(matches!(e, ProcessingError::Decode(_)));
    assert!(e.message().starts_with("Failed to decode base64: "));
    assert!(e.message().len() > "Failed to decode base64: ".len());
    assert!(matches!(decode_transport("aGVsbG8").unwrap_err(), ProcessingError::Decode(_)));
}

#[test]
fn transport_encoding_gives_standard_padded_text() {
    assert_eq!(encode_transport(&b"hello".to_vec()).unwrap(), "aGVsbG8=");
    assert_eq!(encode_transport(&vec![0, 1, 2, 255]).unwrap(), "AAEC/w==");
    assert_eq!(encode_transport(&vec![]).unwrap(), "");
}

#[test]
fn transport_limit_is_three_quarters_of_an_allocation() {
    assert!(is_transportable(0));
    assert!(is_transportable(isize::MAX as usize / 4 * 3));
    assert!(!is_transportable(isize::MAX as usize / 4 * 3 + 1));
    assert!(!is_transportable(usize::MAX));
}

#[test]
fn bytes_that_are_no_image_are_a_decode_error() {
    let e = decode_image(&b"certainly not an image".to_vec()).unwrap_err();
    assert!(matches!(e, ProcessingError::Decode(_)));
    assert!(e.message().starts_with("Failed to load image: "));
    assert!(matches!(decode_image(&vec![]).unwrap_err(), ProcessingError::Decode(_)));
}

#[test]
fn decoding_an_image_keeps_its_pixels() {
    let img = photographic(7, 5);
    let decoded = decode_image(&png_file(&img)).unwrap();
    assert_eq!(decoded, img);
}

#[test]
fn webp_is_never_written() {
    let e = encode(&uniform(4, 4, 10), ImageFormat::Webp, 85).unwrap_err();
    assert!(matches!(e, ProcessingError::UnsupportedFormat(_)));
    assert_eq!(e.message(), "WebP encoding not yet supported");
}

#[test]
fn encoded_files_decode_to_the_same_size() {
    let img = photographic(31, 17);
    let jpeg = encode(&img, ImageFormat::Jpeg, 90).unwrap();
    let png = encode(&img, ImageFormat::Png, 90).unwrap();
    assert_eq!(image::guess_format(&jpeg).unwrap(), image::ImageFormat::Jpeg);
    assert_eq!(image::guess_format(&png).unwrap(), image::ImageFormat::Png);
    assert_eq!(image::load_from_memory(&png).unwrap(), img);
    let back = image::load_from_memory(&jpeg).unwrap();
    assert_eq!((back.width(), back.height()), (31, 17));
}

#[test]
fn codec_refusal_is_an_encode_error() {
    let empty = image::DynamicImage::ImageRgb8(image::RgbImage::new(0, 0));
    let e = encode(&empty, ImageFormat::Jpeg, 85).unwrap_err();
    assert!(matches!(e, ProcessingError::Encode(_)));
    assert!(e.message().starts_with("Failed to encode JPEG: "));
}

#[test]
fn finish_compression_reports_the_measures() {
    let r = finish_compression(vec![1, 2, 3, 4], "png".to_string(), 9, 7, 10).unwrap();
    assert_eq!(r.data, "AQIDBA==");
    assert_eq!(r.format, "png");
    assert_eq!((r.width, r.height), (9, 7));
    assert_eq!(r.size_bytes, 4);
    assert_eq!(r.compression_ratio, Ratio::new(10, 4));
}

#[test]
fn compression_at_full_quality_keeps_the_size() {
    let img = photographic(64, 48);
    let r = compress_image(to_transport(&png_file(&img)), options(None, None, Some(100), None))
        .unwrap();
    assert_eq!(r.format, "jpeg");
    assert_eq!((r.width, r.height), (64, 48));
    let back = image::load_from_memory(&from_transport(&r.data)).unwrap();
    assert_eq!((back.width(), back.height()), (64, 48));
    assert_eq!(image::guess_format(&from_transport(&r.data)).unwrap(), image::ImageFormat::Jpeg);
}

#[test]
fn compression_reports_size_and_ratio() {
    let file = png_file(&photographic(64, 48));
    let r = compress_image(to_transport(&file), options(None, None, None, Some("png"))).unwrap();
    let out = from_transport(&r.data);
    assert_eq!(r.size_bytes, out.len());
    assert_eq!(r.compression_ratio, Ratio::new(file.len() as u128, out.len() as u128));
    assert!(r.compression_ratio.num > 0);
    assert_eq!(image::load_from_memory(&out).unwrap(), photographic(64, 48));
}

#[test]
fn low_quality_jpeg_is_smaller_than_the_original() {
    let file = png_file(&photographic(160, 120));
    let r = compress_image(to_transport(&file), options(None, None, Some(10), Some("jpeg")))
        .unwrap();
    assert!(r.compression_ratio.num > r.compression_ratio.den);
    assert!(r.size_bytes < file.len());
}

#[test]
fn width_bound_scales_the_height_in_proportion() {
    let file = to_transport(&png_file(&photographic(300, 150)));
    let r = compress_image(file.clone(), options(Some(100), None, None, None)).unwrap();
    assert_eq!((r.width, r.height), (100, 50));
    let back = image::load_from_memory(&from_transport(&r.data)).unwrap();
    assert_eq!((back.width(), back.height()), (100, 50));
    let r = compress_image(file, options(Some(200), None, None, Some("png"))).unwrap();
    assert_eq!((r.width, r.height), (200, 100));
}

#[test]
fn height_bound_scales_the_width_in_proportion() {
    let file = to_transport(&png_file(&photographic(300, 151)));
    let r = compress_image(file, options(None, Some(50), None, Some("png"))).unwrap();
    assert_eq!((r.width, r.height), (99, 50));
}

#[test]
fn both_bounds_give_exactly_that_size() {
    let file = to_transport(&png_file(&photographic(300, 150)));
    let r = compress_image(file, options(Some(40), Some(70), None, Some("png"))).unwrap();
    assert_eq!((r.width, r.height), (40, 70));
    let back = image::load_from_memory(&from_transport(&r.data)).unwrap();
    assert_eq!((back.width(), back.height()), (40, 70));
}

#[test]
fn format_name_is_reported_as_given() {
    let file = to_transport(&png_file(&uniform(8, 8, 50)));
    let r = compress_image(file.clone(), options(None, None, None, Some("PNG"))).unwrap();
    assert_eq!(r.format, "PNG");
    assert_eq!(image::guess_format(&from_transport(&r.data)).unwrap(), image::ImageFormat::Png);
    let r = compress_image(file, options(None, None, None, Some("jpg"))).unwrap();
    assert_eq!(r.format, "jpg");
    assert_eq!(image::guess_format(&from_transport(&r.data)).unwrap(), image::ImageFormat::Jpeg);
}

#[test]
fn webp_request_is_an_unsupported_format() {
    let file = to_transport(&png_file(&uniform(8, 8, 50)));
    let e = compress_image(file.clone(), options(None, None, None, Some("webp"))).unwrap_err();
    assert!(matches!(e, ProcessingError::UnsupportedFormat(_)));
    assert_eq!(e.message(), "WebP encoding not yet supported");
    let e = compress_image(file, options(Some(4), None, Some(1), Some("WEBP"))).unwrap_err();
    assert_eq!(e.message(), "WebP encoding not yet supported");
}

#[test]
fn unknown_format_is_an_unsupported_format() {
    let file = to_transport(&png_file(&uniform(8, 8, 50)));
    let e = compress_image(file, options(None, None, None, Some("Gif"))).unwrap_err();
    assert!(matches!(e, ProcessingError::UnsupportedFormat(_)));
    assert_eq!(e.message(), "Unsupported format: Gif");
}

#[test]
fn malformed_payload_comes_before_the_format() {
    let e = compress_image("***".to_string(), options(None, None, None, Some("webp")))
        .unwrap_err();
    assert!(matches!(e, ProcessingError::Decode(_)));
    let e = compress_image(to_transport(b"no image"), options(None, None, None, Some("webp")))
        .unwrap_err();
    assert!(matches!(e, ProcessingError::Decode(_)));
    assert!(e.message().starts_with("Failed to load image: "));
}

#[test]
fn resize_beyond_memory_is_an_encode_error() {
    let e = compress_decoded(
        &uniform(8, 8, 50),
        100,
        options(Some(u32::MAX), Some(u32::MAX), None, Some("png")),
    )
    .unwrap_err();
    assert!(matches!(e, ProcessingError::Encode(_)));
    assert_eq!(e.message(), "Resized image is too large");
    let e = compress_decoded(&uniform(8, 8, 50), 100, options(Some(u32::MAX), None, None, None))
        .unwrap_err();
    assert_eq!(e.message(), "Resized image is too large");
}

#[test]
fn format_is_judged_before_the_resize() {
    let e = compress_decoded(
        &uniform(8, 8, 50),
        100,
        options(Some(u32::MAX), Some(u32::MAX), None, Some("webp")),
    )
    .unwrap_err();
    assert!(matches!(e, ProcessingError::UnsupportedFormat(_)));
    assert_eq!(e.message(), "WebP encoding not yet supported");
    let e = compress_decoded(
        &uniform(8, 8, 50),
        100,
        options(Some(u32::MAX), Some(u32::MAX), None, Some("bmp")),
    )
    .unwrap_err();
    assert_eq!(e.message(), "Unsupported format: bmp");
}

#[test]
fn defaults_are_jpeg_at_quality_85() {
    let file = to_transport(&png_file(&photographic(40, 30)));
    let by_default = compress_image(file.clone(), options(None, None, None, None)).unwrap();
    let asked = compress_image(file, options(None, None, Some(85), Some("jpeg"))).unwrap();
    assert_eq!(by_default.format, "jpeg");
    assert_eq!((by_default.width, by_default.height), (40, 30));
    assert_eq!(by_default.data, asked.data);
    assert_eq!(by_default.size_bytes, asked.size_bytes);
    assert_eq!(by_default.compression_ratio, asked.compression_ratio);
}

#[test]
fn the_requested_quality_reaches_the_codec() {
    let img = photographic(64, 48);
    let mut expected = Vec::new();
    img.write_with_encoder(image::codecs::jpeg::JpegEncoder::new_with_quality(&mut expected, 30))
        .unwrap();
    let r = compress_decoded(&img, 1000, options(None, None, Some(30), Some("jpeg"))).unwrap();
    assert_eq!(from_transport(&r.data), expected);
    let fine = compress_decoded(&img, 1000, options(None, None, Some(95), Some("jpeg"))).unwrap();
    assert!(fine.size_bytes > r.size_bytes);
    assert_eq!(encode(&img, ImageFormat::Jpeg, 30).unwrap(), expected);
}

#[test]
fn the_written_file_is_that_of_the_codec() {
    let img = photographic(20, 10);
    let r = compress_decoded(&img, 1000, options(None, None, None, Some("png"))).unwrap();
    assert_eq!(from_transport(&r.data), png_file(&img));
    assert_eq!(encode(&img, ImageFormat::Png, 85).unwrap(), png_file(&img));
    let resized = img.resize_exact(7, 5, image::imageops::FilterType::Lanczos3);
    let r = compress_decoded(&img, 1000, options(Some(7), Some(5), None, Some("png"))).unwrap();
    assert_eq!(from_transport(&r.data), png_file(&resized));
}

#[test]
fn jpeg_is_written_of_sides_up_to_65535() {
    let widest = uniform(65535, 1, 9);
    let r = compress_decoded(&widest, 50, options(None, None, None, Some("jpeg"))).unwrap();
    assert_eq!((r.width, r.height), (65535, 1));
    assert!(r.size_bytes > 0);
    assert_eq!(r.compression_ratio.den, r.size_bytes as u128);
    let too_wide = uniform(65536, 1, 9);
    let e = compress_decoded(&too_wide, 50, options(None, None, None, Some("jpeg"))).unwrap_err();
    assert!(matches!(e, ProcessingError::Encode(_)));
    assert!(e.message().starts_with("Failed to encode JPEG: "));
    let e = compress_decoded(&uniform(4, 4, 9), 50, options(None, Some(0), None, Some("jpg")))
        .unwrap_err();
    assert!(e.message().starts_with("Failed to encode JPEG: "));
}

#[test]
fn png_of_an_empty_raster_is_refused() {
    let e = compress_decoded(&uniform(4, 4, 9), 50, options(Some(0), Some(3), None, Some("png")))
        .unwrap_err();
    assert!(matches!(e, ProcessingError::Encode(_)));
    assert!(e.message().starts_with("Failed to encode PNG: "));
}

#[test]
fn an_encoder_failure_is_handed_on() {
    let failure = ProcessingError::Encode("Failed to encode PNG: nothing".to_string());
    let e = report_written(Err(failure), "png".to_string(), 3, 4, 5).unwrap_err();
    assert!(matches!(e, ProcessingError::Encode(_)));
    assert_eq!(e.message(), "Failed to encode PNG: nothing");
    let r = report_written(Ok(vec![9, 9, 9]), "jpg".to_string(), 3, 4, 5).unwrap();
    assert_eq!(r.data, "CQkJ");
    assert_eq!((r.width, r.height, r.size_bytes), (3, 4, 3));
    assert_eq!(r.compression_ratio, Ratio::new(5, 3));
}

#[test]
fn analysis_scores_the_converted_pixels() {
    let img = photographic(13, 7);
    let samples = img.to_rgb8().into_raw();
    let expected = assess_quality(&samples);
    let r = analyze_decoded(&img).unwrap();
    assert_eq!(r.brightness_score, expected.brightness_score);
    assert_eq!(r.overall_quality, expected.overall_quality);
    assert_eq!(r.recommendations, expected.recommendations);
    let mut darker = samples.clone();
    let last = darker.len() - 1;
    darker[last] = 0;
    darker[last - 1] = 0;
    darker[last - 2] = 0;
    assert!(assess_quality(&darker).brightness_score != r.brightness_score);
}

#[test]
fn empty_target_is_refused_by_the_jpeg_codec() {
    let res = compress_decoded(&uniform(8, 8, 50), 100, options(Some(0), Some(0), None, None));
    assert!(message_of(res).starts_with("Failed to encode JPEG: "));
}

#[test]
fn receipt_shaped_image_is_detected() {
    let r = detect_receipt_contour(to_transport(&png_file(&uniform(300, 150, 200)))).unwrap();
    assert!(r.detected);
    assert_eq!(r.confidence, Ratio::new(4, 5));
    assert_eq!(r.corners, Some(vec![(0, 0), (300, 0), (300, 150), (0, 150)]));
    assert_eq!(r.bounding_box, Some((0, 0, 300, 150)));
    assert_eq!(r.angle, Some(0));
}

#[test]
fn tall_image_is_not_detected() {
    let r = detect_receipt_contour(to_transport(&png_file(&uniform(300, 310, 200)))).unwrap();
    assert!(!r.detected);
    assert_eq!(r.confidence, Ratio::new(1, 5));
    assert_eq!(r.corners, None);
    assert_eq!(r.bounding_box, None);
    assert_eq!(r.angle, None);
}

#[test]
fn detection_reads_width_and_height_apart() {
    assert!(detect_decoded(&uniform(30, 10, 0)).detected);
    assert!(!detect_decoded(&uniform(10, 30, 0)).detected);
}

#[test]
fn detection_of_a_malformed_payload_fails() {
    let e = detect_receipt_contour("%%%".to_string()).unwrap_err();
    assert!(matches!(e, ProcessingError::Decode(_)));
    let e = detect_receipt_contour(to_transport(b"no image")).unwrap_err();
    assert!(matches!(e, ProcessingError::Decode(_)));
}

#[test]
fn white_image_is_overexposed() {
    let r = analyze_image_quality(to_transport(&png_file(&uniform(20, 10, 255)))).unwrap();
    assert_eq!(r.brightness_score, Ratio::new(255 * 200, 255 * 200));
    assert!(r.recommendations.contains(&"possibly overexposed, reduce brightness".to_string()));
}

#[test]
fn black_image_is_too_dark() {
    let r = analyze_image_quality(to_transport(&png_file(&uniform(20, 10, 0)))).unwrap();
    assert_eq!(r.brightness_score, Ratio::new(0, 255 * 200));
    assert!(r.recommendations.contains(&"too dark, improve lighting".to_string()));
}

#[test]
fn gray_image_is_good() {
    let r = analyze_image_quality(to_transport(&png_file(&uniform(20, 10, 128)))).unwrap();
    assert_eq!(r.brightness_score, Ratio::new(128 * 200, 255 * 200));
    assert_eq!(r.recommendations, vec!["image quality is good".to_string()]);
}

#[test]
fn analysis_converts_to_three_channels() {
    let gray = image::DynamicImage::ImageLuma8(image::GrayImage::from_pixel(
        3,
        2,
        image::Luma([100]),
    ));
    let r = analyze_decoded(&gray).unwrap();
    assert_eq!(r.brightness_score, Ratio::new(100 * 6, 255 * 6));
    let rgba = image::DynamicImage::ImageRgba8(image::RgbaImage::from_pixel(
        2,
        2,
        image::Rgba([30, 60, 90, 7]),
    ));
    let r = analyze_decoded(&rgba).unwrap();
    assert_eq!(r.brightness_score, Ratio::new(60 * 4, 255 * 4));
}

#[test]
fn analysis_of_a_malformed_payload_fails() {
    let e = analyze_image_quality("%%%".to_string()).unwrap_err();
    assert!(matches!(e, ProcessingError::Decode(_)));
    assert!(e.message().starts_with("Failed to decode base64: "));
}

#[test]
fn rasters_must_fit_in_one_allocation() {
    assert!(is_allocatable(4000, 3000));
    assert!(is_allocatable(0, u32::MAX));
    assert!(!is_allocatable(u32::MAX, u32::MAX));
    assert_eq!(is_allocatable(1 << 16, 1 << 11), (16u128 << 27) <= isize::MAX as u128);
    assert!(is_convertible(4000, 3000));
    assert!(!is_convertible(u32::MAX, u32::MAX));
    assert_eq!(is_convertible(u32::MAX, 1), 3 * (u32::MAX as u128) <= isize::MAX as u128);
}

#[test]
fn a_loaded_raster_is_reported_as_it_is() {
    let img = photographic(9, 4);
    assert_eq!(report_loaded(Ok(photographic(9, 4))).unwrap(), img);
    let small = uniform(1, 2, 7);
    assert_eq!(report_loaded(Ok(uniform(1, 2, 7))).unwrap(), small);
}

#[test]
fn a_refusal_of_the_codec_is_reported_as_a_decode_error() {
    let refusal = image::load_from_memory(b"no image").unwrap_err();
    let text = refusal.to_string();
    let e = report_loaded(Err(refusal)).unwrap_err();
    assert!(matches!(e, ProcessingError::Decode(_)));
    assert_eq!(e.message(), format!("Failed to load image: {}", text));
}

fn padded(width: u32, height: u32, excess: usize) -> image::DynamicImage {
    let samples = vec![7u8; (width * height * 3) as usize + excess];
    image::DynamicImage::ImageRgb8(image::RgbImage::from_raw(width, height, samples).unwrap())
}

#[test]
fn a_buffer_is_exactly_filled_when_it_holds_only_the_pixels() {
    assert!(is_exactly_filled(&uniform(5, 4, 1)));
    assert!(is_exactly_filled(&uniform(0, 0, 1)));
    assert!(is_exactly_filled(&padded(2, 2, 0)));
    assert!(!is_exactly_filled(&padded(1, 1, 7)));
    assert!(!is_exactly_filled(&padded(0, 3, 1)));
    let wide = image::DynamicImage::ImageRgba16(image::ImageBuffer::new(3, 2));
    assert!(is_exactly_filled(&wide));
    let resized = padded(4, 4, 5).resize_exact(2, 3, image::imageops::FilterType::Lanczos3);
    assert!(is_exactly_filled(&resized));
    let same = padded(4, 4, 5).resize_exact(4, 4, image::imageops::FilterType::Lanczos3);
    assert!(is_exactly_filled(&same));
}

#[test]
fn a_raster_with_excess_buffer_is_not_encoded() {
    for format in [ImageFormat::Jpeg, ImageFormat::Png] {
        let e = encode(&padded(1, 1, 7), format, 85).unwrap_err();
        assert!(matches!(e, ProcessingError::Encode(_)));
        assert_eq!(e.message(), "Raster does not fill its buffer");
    }
    let e = encode(&padded(1, 1, 7), ImageFormat::Webp, 85).unwrap_err();
    assert_eq!(e.message(), "WebP encoding not yet supported");
    let e = compress_decoded(&padded(3, 2, 1), 40, options(None, None, None, Some("png")))
        .unwrap_err();
    assert_eq!(e.message(), "Raster does not fill its buffer");
}

#[test]
fn a_raster_with_excess_buffer_is_compressed_once_resized() {
    let r = compress_decoded(&padded(6, 4, 9), 40, options(Some(3), None, None, Some("png")))
        .unwrap();
    assert_eq!((r.width, r.height), (3, 2));
    let r = compress_decoded(&padded(6, 4, 9), 40, options(Some(6), Some(4), None, None)).unwrap();
    assert_eq!((r.width, r.height), (6, 4));
}

#[test]
fn an_empty_file_is_refused_before_the_codec() {
    let e = decode_image(&vec![]).unwrap_err();
    assert!(matches!(e, ProcessingError::Decode(_)));
    assert_eq!(e.message(), "Failed to load image: the file is empty");
    let e = compress_image(String::new(), options(None, None, None, None)).unwrap_err();
    assert_eq!(e.message(), "Failed to load image: the file is empty");
    let e = detect_receipt_contour(String::new()).unwrap_err();
    assert_eq!(e.message(), "Failed to load image: the file is empty");
    let e = analyze_image_quality(String::new()).unwrap_err();
    assert_eq!(e.message(), "Failed to load image: the file is empty");
}

#[test]
fn every_compression_has_a_positive_finite_ratio() {
    let file = png_file(&uniform(1, 1, 0));
    for format in ["jpeg", "png"] {
        let r = compress_image(to_transport(&file), options(None, None, Some(1), Some(format)))
            .unwrap();
        assert!(r.compression_ratio.num > 0);
        assert!(r.compression_ratio.den > 0);
        assert!(r.size_bytes > 0);
    }
}
