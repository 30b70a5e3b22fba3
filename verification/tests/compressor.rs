use quicktoolify_backend::services::compressor::{
    compress_failure, compress_image, fills, has_jpeg_extension, png_tuning,
    still_image_compression,
    CompressError, CompressStage, Compression, JpegEncoding, PngTuning, StillImageCompression,
    Tuning, WebPTuning, PALETTE_BELOW, PALETTE_COLORS, PNG_QUALITY, QUANTIZE_BELOW,
};
use std::io::Cursor;

fn picture(width: u32, height: u32) -> image::DynamicImage {
    let buffer = image::RgbImage::from_fn(width, height, |x, y| {
        image::Rgb([(x * 5 % 256) as u8, (y * 3 % 256) as u8, ((x * y) % 256) as u8])
    });
    image::DynamicImage::ImageRgb8(buffer)
}

fn jpeg_picture(width: u32, height: u32) -> Vec<u8> {
    let mut out = Cursor::new(Vec::new());
    picture(width, height).write_to(&mut out, image::ImageFormat::Jpeg).unwrap();
    out.into_inner()
}

fn jpeg_job(result: Result<Compression, CompressError>) -> JpegEncoding {
    match result {
        Ok(Compression::Jpeg(job)) => job,
        Ok(Compression::StillImage(c)) => panic!("handed to the still-image backend: {:?}", c),
        Err(e) => panic!("failed: {:?}", e),
    }
}

fn still_image_job(result: Result<Compression, CompressError>) -> StillImageCompression {
    match result {
        Ok(Compression::StillImage(c)) => c,
        Ok(Compression::Jpeg(_)) => panic!("handed to the JPEG encoder"),
        Err(e) => panic!("failed: {:?}", e),
    }
}

fn run_jpeg_encoder(job: &JpegEncoding) -> Vec<u8> {
    let mut encoder = mozjpeg::Compress::new(mozjpeg::ColorSpace::JCS_RGB);
    encoder.set_size(job.width as usize, job.height as usize);
    encoder.set_quality(job.quality as f32);
    if job.progressive {
        encoder.set_progressive_mode();
    }
    encoder.set_optimize_scans(job.optimize_scans);
    let mut started = encoder.start_compress(Vec::new()).unwrap();
    started.write_scanlines(&job.pixels).unwrap();
    started.finish().unwrap()
}

#[test]
fn thresholds() {
    assert_eq!(PNG_QUALITY, 60);
    assert_eq!(PALETTE_COLORS, 256);
    assert_eq!(QUANTIZE_BELOW, 80);
    assert_eq!(PALETTE_BELOW, 90);
}

#[test]
fn png_below_80_is_quantized_and_indexed() {
    let expected = PngTuning {
        quality: 60,
        zip: true,
        quantize_colors: Some(256),
        filter: 5,
        level: 9,
        strategy: 2,
        palette: true,
    };
    assert_eq!(png_tuning(1), expected);
    assert_eq!(png_tuning(60), expected);
    assert_eq!(png_tuning(79), expected);
}

#[test]
fn png_from_80_to_89_is_indexed_only() {
    let expected = PngTuning {
        quality: 60,
        zip: true,
        quantize_colors: None,
        filter: 5,
        level: 9,
        strategy: 2,
        palette: true,
    };
    assert_eq!(png_tuning(80), expected);
    assert_eq!(png_tuning(89), expected);
}

#[test]
fn png_from_90_keeps_its_colours() {
    let expected = PngTuning {
        quality: 60,
        zip: true,
        quantize_colors: None,
        filter: 5,
        level: 9,
        strategy: 2,
        palette: false,
    };
    assert_eq!(png_tuning(90), expected);
    assert_eq!(png_tuning(100), expected);
}

#[test]
fn png_goes_to_the_still_image_backend() {
    let job = still_image_job(compress_image("picture.png", b"not even a png", 75));
    assert_eq!(
        job,
        StillImageCompression { quality: 75, tuning: Tuning::Png(png_tuning(75)), strip_metadata: true }
    );
    let job = still_image_job(compress_image("PICTURE.PNG", b"", 95));
    assert_eq!(job.quality, 95);
    assert_eq!(job.tuning, Tuning::Png(png_tuning(95)));
}

#[test]
fn webp_is_written_lossy_with_the_most_effort() {
    let job = still_image_job(compress_image("picture.webp", b"", 60));
    assert_eq!(
        job,
        StillImageCompression {
            quality: 60,
            tuning: Tuning::WebP(WebPTuning { lossless: false, method: 6 }),
            strip_metadata: true,
        }
    );
    assert_eq!(still_image_compression("webp", 1).quality, 1);
    assert_eq!(still_image_compression("webp", 100).quality, 100);
}

#[test]
fn other_formats_get_the_quality_and_nothing_else() {
    for name in ["picture.gif", "picture", "picture.", "picture.avif", "picture.heic", ".png"] {
        let job = still_image_job(compress_image(name, b"", 42));
        assert_eq!(
            job,
            StillImageCompression { quality: 42, tuning: Tuning::Plain, strip_metadata: true },
            "for {:?}",
            name
        );
    }
}

#[test]
fn jpeg_extensions() {
    assert!(has_jpeg_extension("jpg"));
    assert!(has_jpeg_extension("jpeg"));
    assert!(!has_jpeg_extension("JPG"));
    assert!(!has_jpeg_extension("jpe"));
    assert!(!has_jpeg_extension("png"));
    assert!(!has_jpeg_extension(""));
}

#[test]
fn jpeg_is_decoded_for_the_jpeg_encoder() {
    let input = jpeg_picture(16, 12);
    let job = jpeg_job(compress_image("photo.jpg", &input, 70));
    assert_eq!((job.width, job.height), (16, 12));
    assert_eq!(job.pixels.len(), 16 * 12 * 3);
    assert_eq!(job.quality, 70);
    assert!(job.progressive);
    assert!(job.optimize_scans);
    let expected = image::load_from_memory(&input).unwrap().to_rgb8().into_raw();
    assert_eq!(job.pixels, expected);
    let job = jpeg_job(compress_image("PHOTO.JPEG", &input, 1));
    assert_eq!(job.quality, 1);
}

#[test]
fn jpeg_that_cannot_be_decoded_fails() {
    let error = match compress_image("photo.jpg", b"", 60) {
        Err(e) => e,
        Ok(_) => panic!("did not fail"),
    };
    assert!(matches!(error, CompressError::JpegOpenFailed { .. }));
    let message = error.message();
    assert!(message.starts_with("JPEG 画像読み込みエラー: "));
    assert!(message.len() > "JPEG 画像読み込みエラー: ".len());
    let png_as_jpeg = {
        let mut out = Cursor::new(Vec::new());
        picture(3, 3).write_to(&mut out, image::ImageFormat::Png).unwrap();
        out.into_inner()
    };
    assert!(matches!(
        compress_image("photo.jpeg", &png_as_jpeg, 60),
        Err(CompressError::JpegOpenFailed { .. })
    ));
}

#[test]
fn failures_name_their_stage() {
    let error = compress_failure(CompressStage::JpegEncode, "invalid input".to_string());
    assert!(matches!(&error, CompressError::JpegEncodeFailed { detail } if detail == "invalid input"));
    assert_eq!(error.message(), "invalid input");
    let error = compress_failure(CompressStage::JpegSave, "disk full".to_string());
    assert!(matches!(&error, CompressError::JpegSaveFailed { detail } if detail == "disk full"));
    assert_eq!(error.message(), "JPEG保存エラー: disk full");
    let error = compress_failure(CompressStage::Read, "no delegate".to_string());
    assert!(matches!(&error, CompressError::ReadFailed { detail } if detail == "no delegate"));
    assert_eq!(error.message(), "ImageMagick 画像読み込み失敗: no delegate");
    let error = compress_failure(CompressStage::Save, "disk full".to_string());
    assert!(matches!(&error, CompressError::SaveFailed { detail } if detail == "disk full"));
    assert_eq!(error.message(), "Failed to save compressed image: disk full");
    let error = CompressError::JpegOpenFailed { detail: "truncated".to_string() };
    assert_eq!(error.message(), "JPEG 画像読み込みエラー: truncated");
}

#[test]
fn compressing_a_compressed_jpeg_again_does_not_make_it_grow() {
    let original = jpeg_picture(96, 64);
    let first = run_jpeg_encoder(&jpeg_job(compress_image("photo.jpg", &original, 60)));
    assert_eq!(image::guess_format(&first).unwrap(), image::ImageFormat::Jpeg);
    let second = run_jpeg_encoder(&jpeg_job(compress_image("photo.jpg", &first, 60)));
    assert_eq!(image::guess_format(&second).unwrap(), image::ImageFormat::Jpeg);
    let tolerance = first.len() / 20 + 64;
    assert!(
        second.len() <= first.len() + tolerance,
        "{} bytes became {} bytes",
        first.len(),
        second.len()
    );
    let decoded = image::load_from_memory(&second).unwrap();
    assert_eq!((decoded.width(), decoded.height()), (96, 64));
}

#[test]
fn samples_fill_an_image_when_there_are_three_for_each_pixel() {
    assert!(fills(&[0; 3], 1, 1));
    assert!(fills(&[0; 36], 4, 3));
    assert!(fills(&[0; 36], 12, 1));
    assert!(!fills(&[0; 35], 4, 3));
    assert!(!fills(&[0; 37], 4, 3));
    assert!(!fills(&[0; 12], 4, 3));
    assert!(!fills(&[0; 36], 3, 3));
}

#[test]
fn an_image_without_pixels_is_not_filled() {
    assert!(!fills(&[], 0, 0));
    assert!(!fills(&[], 0, 5));
    assert!(!fills(&[], 5, 0));
    assert!(!fills(&[0; 3], 0, 1));
    assert!(!fills(&[], 4294967295, 4294967295));
}
