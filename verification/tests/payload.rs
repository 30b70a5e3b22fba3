use quicktoolify_backend::payload::{
    data_url, data_url_with, error_marker, marks_error, media_type_for_extension,
    media_type_for_format,
};

#[test]
fn media_types_of_formats() {
    assert_eq!(media_type_for_format("jpeg"), "image/jpeg");
    assert_eq!(media_type_for_format("png"), "image/png");
    assert_eq!(media_type_for_format("webp"), "image/webp");
    assert_eq!(media_type_for_format("avif"), "image/avif");
    assert_eq!(media_type_for_format("jpg"), "application/octet-stream");
    assert_eq!(media_type_for_format("bmp"), "application/octet-stream");
    assert_eq!(media_type_for_format(""), "application/octet-stream");
    assert_eq!(media_type_for_format("PNG"), "application/octet-stream");
}

#[test]
fn media_types_of_extensions() {
    assert_eq!(media_type_for_extension("jpg"), "image/jpeg");
    assert_eq!(media_type_for_extension("jpeg"), "image/jpeg");
    assert_eq!(media_type_for_extension("png"), "image/png");
    assert_eq!(media_type_for_extension("webp"), "image/webp");
    assert_eq!(media_type_for_extension("avif"), "application/octet-stream");
    assert_eq!(media_type_for_extension("gif"), "application/octet-stream");
    assert_eq!(media_type_for_extension(""), "application/octet-stream");
}

#[test]
fn data_url_holds_the_bytes_in_base64() {
    assert_eq!(data_url("image/png", b"hi"), "data:image/png;base64,aGk=");
    assert_eq!(data_url("image/jpeg", b"hello world~"), "data:image/jpeg;base64,aGVsbG8gd29ybGR+");
    assert_eq!(data_url("image/webp", &[0xfb, 0xff]), "data:image/webp;base64,+/8=");
    assert_eq!(data_url("image/webp", &[0, 0, 0]), "data:image/webp;base64,AAAA");
}

#[test]
fn data_url_of_nothing() {
    assert_eq!(data_url("image/png", b""), "data:image/png;base64,");
}

#[test]
fn data_url_around_a_payload() {
    assert_eq!(data_url_with("image/png", "aGk="), "data:image/png;base64,aGk=");
    assert_eq!(data_url_with("", ""), "data:;base64,");
}

#[test]
fn error_markers() {
    assert_eq!(error_marker("no such format"), "error:no such format");
    assert_eq!(error_marker(""), "error:");
}

#[test]
fn error_markers_are_told_from_urls() {
    assert!(marks_error("error:"));
    assert!(marks_error("error:Failed to open image: x"));
    assert!(marks_error(&error_marker("anything")));
    assert!(!marks_error("data:image/png;base64,aGk="));
    assert!(!marks_error(&data_url("image/png", b"error:")));
    assert!(!marks_error("error"));
    assert!(!marks_error("Error:x"));
    assert!(!marks_error(" error:x"));
    assert!(!marks_error(""));
}
