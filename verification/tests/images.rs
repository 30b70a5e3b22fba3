use quicktoolify_backend::handlers::images::{
    compress_image, compressed_file, compression_ratio, convert_image, converted_file,
    failed_compression, failed_conversion, finish_compression, finish_conversion,
    CompressFailure, CompressStep, CompressionRatio, ConvertStep, StillImageFailure, UploadItem,
};
use quicktoolify_backend::payload::marks_error;
use quicktoolify_backend::services::compressor::{
    png_tuning, CompressError, CompressStage, Compression, StillImageCompression, Tuning,
};
use quicktoolify_backend::formats::TargetFormat;
use quicktoolify_backend::services::converter::{
    ConvertError, StillImageConversion, StillImageStage,
};
use std::io::Cursor;

fn encoded_picture(width: u32, height: u32, format: image::ImageFormat) -> Vec<u8> {
    let buffer = image::RgbImage::from_fn(width, height, |x, y| {
        image::Rgb([(x * 11 % 256) as u8, (y * 17 % 256) as u8, 128])
    });
    let mut out = Cursor::new(Vec::new());
    image::DynamicImage::ImageRgb8(buffer).write_to(&mut out, format).unwrap();
    out.into_inner()
}

fn upload(name: &str, bytes: Vec<u8>) -> UploadItem {
    UploadItem { original_name: name.to_string(), raw_bytes: bytes }
}

fn is_token(text: &str) -> bool {
    let bytes = text.as_bytes();
    bytes.len() == 36
        && bytes.iter().enumerate().all(|(i, b)| {
            if i == 8 || i == 13 || i == 18 || i == 23 {
                *b == b'-'
            } else {
                b.is_ascii_digit() || (b'a'..=b'f').contains(b)
            }
        })
}

fn payload_of(url: &str, head: &str) -> Vec<u8> {
    assert!(url.starts_with(head), "{:?} does not start with {:?}", url, head);
    base64::Engine::decode(&base64::engine::general_purpose::STANDARD, &url[head.len()..]).unwrap()
}

#[test]
fn entry_of_a_converted_file() {
    let file = converted_file("in.png".to_string(), "out.jpg".to_string(), "jpeg", b"hi");
    assert_eq!(file.original_name, "in.png");
    assert_eq!(file.name, "out.jpg");
    assert_eq!(file.url, "data:image/jpeg;base64,aGk=");
    assert_eq!(file.size, 2);
}

#[test]
fn entry_of_a_failed_conversion() {
    let error = ConvertError::UnsupportedFormat { format: "bmp".to_string() };
    let file = failed_conversion("in.png".to_string(), "0123", &error);
    assert_eq!(file.original_name, "in.png");
    assert_eq!(file.name, "error-0123");
    assert_eq!(file.url, "error:Unsupported output format: bmp");
    assert_eq!(file.size, 0);
}

#[test]
fn ratio_is_compressed_over_original() {
    assert_eq!(compression_ratio(50, 200), CompressionRatio { numerator: 50, denominator: 200 });
    assert_eq!(compression_ratio(300, 200), CompressionRatio { numerator: 300, denominator: 200 });
    assert_eq!(compression_ratio(0, 200), CompressionRatio { numerator: 0, denominator: 200 });
    let ratio = compression_ratio(50, 200);
    assert_eq!(ratio.numerator as f32 / ratio.denominator as f32, 0.25);
}

#[test]
fn ratio_of_an_empty_original_is_one() {
    assert_eq!(compression_ratio(0, 0), CompressionRatio { numerator: 1, denominator: 1 });
    assert_eq!(compression_ratio(10, 0), CompressionRatio { numerator: 1, denominator: 1 });
    let ratio = compression_ratio(10, 0);
    assert_eq!(ratio.numerator as f32 / ratio.denominator as f32, 1.0);
}

#[test]
fn entry_of_a_compressed_file() {
    let file = compressed_file("in.PNG".to_string(), "compressed-x.png".to_string(), "png", 8, b"hi");
    assert_eq!(file.original_name, "in.PNG");
    assert_eq!(file.name, "compressed-x.png");
    assert_eq!(file.url, "data:image/png;base64,aGk=");
    assert_eq!(file.original_size, 8);
    assert_eq!(file.compressed_size, 2);
    assert_eq!(file.compression_ratio, CompressionRatio { numerator: 2, denominator: 8 });
    let file = compressed_file("in.gif".to_string(), "compressed-x.gif".to_string(), "gif", 0, b"");
    assert_eq!(file.url, "data:application/octet-stream;base64,");
    assert_eq!(file.compression_ratio, CompressionRatio { numerator: 1, denominator: 1 });
}

#[test]
fn entry_of_a_failed_compression() {
    let error = CompressError::SaveFailed { detail: "disk full".to_string() };
    let file = failed_compression("in.png".to_string(), "0123", 77, &error);
    assert_eq!(file.original_name, "in.png");
    assert_eq!(file.name, "error-0123");
    assert_eq!(file.url, "error:Failed to save compressed image: disk full");
    assert_eq!(file.original_size, 77);
    assert_eq!(file.compressed_size, 0);
    assert_eq!(file.compression_ratio, CompressionRatio { numerator: 1, denominator: 1 });
}

#[test]
fn png_is_converted_to_jpeg_inline() {
    let item = upload("picture.png", encoded_picture(12, 7, image::ImageFormat::Png));
    let file = match convert_image(&item, "jpeg") {
        ConvertStep::Finished(file) => file,
        ConvertStep::Pending(_) => panic!("left for the still-image backend"),
    };
    assert_eq!(file.original_name, "picture.png");
    assert!(file.name.ends_with(".jpg"));
    assert!(is_token(&file.name[..file.name.len() - 4]), "{:?}", file.name);
    assert!(file.size > 0);
    assert!(!marks_error(&file.url));
    let bytes = payload_of(&file.url, "data:image/jpeg;base64,");
    assert_eq!(bytes.len(), file.size);
    let decoded = image::load_from_memory(&bytes).unwrap();
    assert_eq!((decoded.width(), decoded.height()), (12, 7));
}

#[test]
fn two_conversions_get_two_names() {
    let item = upload("picture.png", encoded_picture(2, 2, image::ImageFormat::Png));
    let first = match convert_image(&item, "webp") {
        ConvertStep::Finished(file) => file.name,
        ConvertStep::Pending(_) => panic!("left for the still-image backend"),
    };
    let second = match convert_image(&item, "webp") {
        ConvertStep::Finished(file) => file.name,
        ConvertStep::Pending(_) => panic!("left for the still-image backend"),
    };
    assert!(first.ends_with(".webp") && second.ends_with(".webp"));
    assert_ne!(first, second);
}

#[test]
fn empty_file_gets_an_error_entry() {
    let item = upload("empty.png", Vec::new());
    let file = match convert_image(&item, "jpeg") {
        ConvertStep::Finished(file) => file,
        ConvertStep::Pending(_) => panic!("left for the still-image backend"),
    };
    assert_eq!(file.original_name, "empty.png");
    assert!(file.name.starts_with("error-"));
    assert!(is_token(&file.name["error-".len()..]), "{:?}", file.name);
    assert!(file.url.starts_with("error:Failed to open image: "));
    assert!(marks_error(&file.url));
    assert_eq!(file.size, 0);
}

#[test]
fn unsupported_format_gets_an_error_entry() {
    let item = upload("picture.png", encoded_picture(2, 2, image::ImageFormat::Png));
    let file = match convert_image(&item, "bmp") {
        ConvertStep::Finished(file) => file,
        ConvertStep::Pending(_) => panic!("left for the still-image backend"),
    };
    assert_eq!(file.original_name, "picture.png");
    assert!(is_token(&file.name["error-".len()..]));
    assert_eq!(file.url, "error:Unsupported output format: bmp");
    assert_eq!(file.size, 0);
    let item = upload("photo.heic", vec![1, 2, 3]);
    let file = match convert_image(&item, "bmp") {
        ConvertStep::Finished(file) => file,
        ConvertStep::Pending(_) => panic!("left for the still-image backend"),
    };
    assert_eq!(file.url, "error:ImageMagickでサポートされていないフォーマット: bmp");
    assert_eq!(file.size, 0);
}

#[test]
fn still_image_files_are_handed_back() {
    let item = upload("photo.heic", vec![1, 2, 3]);
    let task = match convert_image(&item, "jpeg") {
        ConvertStep::Pending(task) => task,
        ConvertStep::Finished(file) => panic!("finished as {:?}", file.url),
    };
    assert!(task.name.ends_with(".jpg"));
    assert!(is_token(&task.name[..task.name.len() - 4]));
    assert_eq!(
        task.conversion,
        StillImageConversion { format: TargetFormat::Jpeg, quality: Some(90) }
    );
    let item = upload("picture.png", encoded_picture(2, 2, image::ImageFormat::Png));
    let task = match convert_image(&item, "avif") {
        ConvertStep::Pending(task) => task,
        ConvertStep::Finished(file) => panic!("finished as {:?}", file.url),
    };
    assert!(task.name.ends_with(".avif"));
    assert_eq!(
        task.conversion,
        StillImageConversion { format: TargetFormat::Avif, quality: None }
    );
}

#[test]
fn answer_of_the_still_image_backend_becomes_the_entry() {
    let item = upload("photo.heic", vec![1, 2, 3]);
    let file = finish_conversion(&item, "kept.avif".to_string(), "avif", Ok(b"hi".to_vec()));
    assert_eq!(file.original_name, "photo.heic");
    assert_eq!(file.name, "kept.avif");
    assert_eq!(file.url, "data:image/avif;base64,aGk=");
    assert_eq!(file.size, 2);
    let failure = StillImageFailure { stage: StillImageStage::Read, detail: "no delegate".to_string() };
    let file = finish_conversion(&item, "kept.avif".to_string(), "avif", Err(failure));
    assert_eq!(file.original_name, "photo.heic");
    assert!(is_token(&file.name["error-".len()..]));
    assert_eq!(file.url, "error:Failed to read image with ImageMagick: no delegate");
    assert_eq!(file.size, 0);
    let failure = StillImageFailure { stage: StillImageStage::Write, detail: "x".to_string() };
    let file = finish_conversion(&item, "kept.avif".to_string(), "avif", Err(failure));
    assert_eq!(file.url, "error:Failed to save image with ImageMagick: x");
    let failure = StillImageFailure { stage: StillImageStage::SetFormat, detail: "y".to_string() };
    let file = finish_conversion(&item, "kept.avif".to_string(), "avif", Err(failure));
    assert_eq!(file.url, "error:Failed to set image format: y");
}

#[test]
fn png_compression_is_handed_back() {
    let item = upload("Picture.PNG", vec![0; 10]);
    let task = match compress_image(&item, 85) {
        CompressStep::Pending(task) => task,
        CompressStep::Finished(file) => panic!("finished as {:?}", file.url),
    };
    assert!(task.name.starts_with("compressed-"));
    assert!(task.name.ends_with(".png"));
    assert!(is_token(&task.name["compressed-".len()..task.name.len() - 4]), "{:?}", task.name);
    match task.work {
        Compression::StillImage(c) => assert_eq!(
            c,
            StillImageCompression {
                quality: 85,
                tuning: Tuning::Png(png_tuning(85)),
                strip_metadata: true
            }
        ),
        Compression::Jpeg(_) => panic!("handed to the JPEG encoder"),
    }
}

#[test]
fn jpeg_compression_is_handed_back_decoded() {
    let item = upload("photo.jpeg", encoded_picture(10, 6, image::ImageFormat::Jpeg));
    let task = match compress_image(&item, 33) {
        CompressStep::Pending(task) => task,
        CompressStep::Finished(file) => panic!("finished as {:?}", file.url),
    };
    assert!(task.name.starts_with("compressed-") && task.name.ends_with(".jpeg"));
    match task.work {
        Compression::Jpeg(job) => {
            assert_eq!((job.width, job.height, job.quality), (10, 6, 33));
            assert_eq!(job.pixels.len(), 180);
            assert!(job.progressive && job.optimize_scans);
        }
        Compression::StillImage(_) => panic!("handed to the still-image backend"),
    }
}

#[test]
fn jpeg_that_cannot_be_decoded_gets_an_error_entry() {
    let item = upload("photo.jpg", vec![9; 5]);
    let file = match compress_image(&item, 60) {
        CompressStep::Finished(file) => file,
        CompressStep::Pending(_) => panic!("left for a backend"),
    };
    assert_eq!(file.original_name, "photo.jpg");
    assert!(is_token(&file.name["error-".len()..]));
    assert!(file.url.starts_with("error:JPEG 画像読み込みエラー: "));
    assert_eq!(file.original_size, 5);
    assert_eq!(file.compressed_size, 0);
    assert_eq!(file.compression_ratio, CompressionRatio { numerator: 1, denominator: 1 });
}

#[test]
fn answer_of_a_backend_becomes_the_entry() {
    let item = upload("Photo.JPG", vec![0; 8]);
    let file = finish_compression(&item, "compressed-kept.jpg".to_string(), Ok(b"hi".to_vec()));
    assert_eq!(file.original_name, "Photo.JPG");
    assert_eq!(file.name, "compressed-kept.jpg");
    assert_eq!(file.url, "data:image/jpeg;base64,aGk=");
    assert_eq!(file.original_size, 8);
    assert_eq!(file.compressed_size, 2);
    assert_eq!(file.compression_ratio, CompressionRatio { numerator: 2, denominator: 8 });
    let failure = CompressFailure { stage: CompressStage::Save, detail: "disk full".to_string() };
    let file = finish_compression(&item, "compressed-kept.jpg".to_string(), Err(failure));
    assert!(is_token(&file.name["error-".len()..]));
    assert_eq!(file.url, "error:Failed to save compressed image: disk full");
    assert_eq!(file.original_size, 8);
    assert_eq!(file.compressed_size, 0);
    assert_eq!(file.compression_ratio, CompressionRatio { numerator: 1, denominator: 1 });
}

#[test]
fn compressed_file_of_unknown_type_is_sent_as_octets() {
    let item = upload("scan.tiff", vec![0; 4]);
    let file = finish_compression(&item, "compressed-kept.tiff".to_string(), Ok(vec![0xfb, 0xff]));
    assert_eq!(file.url, "data:application/octet-stream;base64,+/8=");
    let item = upload("empty.webp", Vec::new());
    let file = finish_compression(&item, "compressed-kept.webp".to_string(), Ok(vec![1]));
    assert_eq!(file.url, "data:image/webp;base64,AQ==");
    assert_eq!(file.compression_ratio, CompressionRatio { numerator: 1, denominator: 1 });
}
