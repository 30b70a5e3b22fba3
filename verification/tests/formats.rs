use quicktoolify_backend::formats::TargetFormat;
use quicktoolify_backend::handlers::batch::{RequestFailure, STATUS_OK};
use quicktoolify_backend::naming::output_extension;
use quicktoolify_backend::payload::media_type_for_format;
use quicktoolify_backend::services::raster::RasterFormat;

const ALL: [TargetFormat; 4] =
    [TargetFormat::Jpeg, TargetFormat::Png, TargetFormat::WebP, TargetFormat::Avif];

#[test]
fn formats_by_their_names() {
    assert_eq!(TargetFormat::from_name("jpeg"), Some(TargetFormat::Jpeg));
    assert_eq!(TargetFormat::from_name("png"), Some(TargetFormat::Png));
    assert_eq!(TargetFormat::from_name("webp"), Some(TargetFormat::WebP));
    assert_eq!(TargetFormat::from_name("avif"), Some(TargetFormat::Avif));
}

#[test]
fn other_names_mean_no_format() {
    for name in ["", "jpg", "JPEG", "Png", "bmp", "gif", "heic", " png", "png ", "webp2"] {
        assert_eq!(TargetFormat::from_name(name), None, "for {:?}", name);
    }
}

#[test]
fn table_of_formats() {
    assert_eq!(TargetFormat::Jpeg.name(), "jpeg");
    assert_eq!(TargetFormat::Jpeg.extension(), "jpg");
    assert_eq!(TargetFormat::Jpeg.media_type(), "image/jpeg");
    assert_eq!(TargetFormat::Jpeg.still_image_name(), "JPEG");
    assert_eq!(TargetFormat::Jpeg.raster_format(), Some(RasterFormat::Jpeg));
    assert!(TargetFormat::Jpeg.lossy());

    assert_eq!(TargetFormat::Png.name(), "png");
    assert_eq!(TargetFormat::Png.extension(), "png");
    assert_eq!(TargetFormat::Png.media_type(), "image/png");
    assert_eq!(TargetFormat::Png.still_image_name(), "PNG");
    assert_eq!(TargetFormat::Png.raster_format(), Some(RasterFormat::Png));
    assert!(!TargetFormat::Png.lossy());

    assert_eq!(TargetFormat::WebP.name(), "webp");
    assert_eq!(TargetFormat::WebP.extension(), "webp");
    assert_eq!(TargetFormat::WebP.media_type(), "image/webp");
    assert_eq!(TargetFormat::WebP.still_image_name(), "WEBP");
    assert_eq!(TargetFormat::WebP.raster_format(), Some(RasterFormat::WebP));
    assert!(TargetFormat::WebP.lossy());

    assert_eq!(TargetFormat::Avif.name(), "avif");
    assert_eq!(TargetFormat::Avif.extension(), "avif");
    assert_eq!(TargetFormat::Avif.media_type(), "image/avif");
    assert_eq!(TargetFormat::Avif.still_image_name(), "AVIF");
    assert_eq!(TargetFormat::Avif.raster_format(), None);
    assert!(!TargetFormat::Avif.lossy());
}

#[test]
fn a_format_is_the_one_that_its_name_means() {
    for format in ALL {
        assert_eq!(TargetFormat::from_name(format.name()), Some(format));
    }
}

#[test]
fn names_and_table_agree() {
    for format in ALL {
        assert_eq!(output_extension(format.name()), format.extension());
        assert_eq!(media_type_for_format(format.name()), format.media_type());
        assert_eq!(format.media_type(), format!("image/{}", format.name()));
    }
}

#[test]
fn statuses_of_stopped_requests() {
    assert_eq!(STATUS_OK, 200);
    assert_eq!(RequestFailure::StagingUnavailable.status(), 500);
    assert_eq!(RequestFailure::UnreadableUpload.status(), 400);
}
