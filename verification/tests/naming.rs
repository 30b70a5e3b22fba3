use quicktoolify_backend::naming::{
    compressed_name, converted_name, error_name, file_extension, output_extension,
    written_extension,
};
use std::path::Path;

fn extension_by_path(name: &str) -> String {
    Path::new(name).extension().and_then(|e| e.to_str()).unwrap_or("").to_lowercase()
}

#[test]
fn extension_is_what_follows_the_last_dot() {
    assert_eq!(file_extension("photo.png"), "png");
    assert_eq!(file_extension("archive.tar.gz"), "gz");
    assert_eq!(file_extension("a.b.c.jpeg"), "jpeg");
}

#[test]
fn extension_is_lower_case() {
    assert_eq!(file_extension("PHOTO.PNG"), "png");
    assert_eq!(file_extension("Holiday.JpEg"), "jpeg");
    assert_eq!(file_extension("x.HEIC"), "heic");
    assert_eq!(file_extension("x.ÄB"), "äb");
}

#[test]
fn names_without_extension_have_the_empty_one() {
    assert_eq!(file_extension(""), "");
    assert_eq!(file_extension("README"), "");
    assert_eq!(file_extension(".bashrc"), "");
    assert_eq!(file_extension("trailing."), "");
    assert_eq!(file_extension("."), "");
    assert_eq!(file_extension(".."), "");
    assert_eq!(file_extension("dir.d/file"), "");
}

#[test]
fn extension_is_taken_from_the_final_component() {
    assert_eq!(file_extension("dir/photo.png"), "png");
    assert_eq!(file_extension("a.b/c.webp"), "webp");
    assert_eq!(file_extension("dir/.hidden"), "");
    assert_eq!(file_extension("dir/.hidden.jpg"), "jpg");
    assert_eq!(file_extension("C:\\photos\\a.PNG"), "png");
}

#[test]
fn extension_agrees_with_the_path_type_on_every_short_name() {
    let alphabet = ['a', 'B', '.', '/'];
    let mut names = vec![String::new()];
    let mut from = 0;
    for _ in 0..7 {
        let upto = names.len();
        for i in from..upto {
            for c in alphabet {
                let mut longer = names[i].clone();
                longer.push(c);
                names.push(longer);
            }
        }
        from = upto;
    }
    assert_eq!(names.len(), 21845);
    for name in &names {
        assert_eq!(file_extension(name), extension_by_path(name), "for {:?}", name);
    }
}

#[test]
fn parts_that_name_nothing_are_passed_over() {
    assert_eq!(file_extension("photo.png/"), "png");
    assert_eq!(file_extension("photo.png//"), "png");
    assert_eq!(file_extension("photo.png/."), "png");
    assert_eq!(file_extension("photo.png/./"), "png");
    assert_eq!(file_extension("dir/photo.JPG/././/"), "jpg");
    assert_eq!(file_extension("photo.png/.."), "");
    assert_eq!(file_extension("/"), "");
    assert_eq!(file_extension("./"), "");
    assert_eq!(file_extension("//."), "");
}

#[test]
fn extension_agrees_with_the_path_type_on_file_names() {
    let names = [
        "photo.png", "PHOTO.JPG", "a.b.c", "noext", ".hidden", ".hidden.txt", "x.", "..", ".",
        "", "dir/a.png", "dir.x/a", "./a.webp", "../a.avif", "a/b/c.d.E", "...", "a..b", "ü.Ö",
    ];
    for name in names {
        assert_eq!(file_extension(name), extension_by_path(name), "for {:?}", name);
    }
}

#[test]
fn jpeg_is_written_as_jpg() {
    assert_eq!(output_extension("jpeg"), "jpg");
    assert_eq!(output_extension("png"), "png");
    assert_eq!(output_extension("webp"), "webp");
    assert_eq!(output_extension("avif"), "avif");
    assert_eq!(output_extension("bmp"), "bmp");
    assert_eq!(output_extension("JPEG"), "JPEG");
    assert_eq!(output_extension(""), "");
}

#[test]
fn converted_names() {
    let token = "123e4567-e89b-42d3-a456-426614174000";
    assert_eq!(converted_name(token, "jpeg"), "123e4567-e89b-42d3-a456-426614174000.jpg");
    assert_eq!(converted_name(token, "webp"), "123e4567-e89b-42d3-a456-426614174000.webp");
    assert_eq!(converted_name(token, "png"), "123e4567-e89b-42d3-a456-426614174000.png");
}

#[test]
fn compressed_names_keep_the_extension() {
    let token = "123e4567-e89b-42d3-a456-426614174000";
    assert_eq!(
        compressed_name(token, "png"),
        "compressed-123e4567-e89b-42d3-a456-426614174000.png"
    );
    assert_eq!(
        compressed_name(token, "jpeg"),
        "compressed-123e4567-e89b-42d3-a456-426614174000.jpeg"
    );
    assert_eq!(compressed_name(token, ""), "compressed-123e4567-e89b-42d3-a456-426614174000.");
}

#[test]
fn error_names() {
    assert_eq!(error_name("abc"), "error-abc");
    assert_eq!(error_name(""), "error-");
}

#[test]
fn written_extension_keeps_its_case() {
    assert_eq!(written_extension("PHOTO.PNG"), "PNG");
    assert_eq!(written_extension("a/b.tar.Gz"), "Gz");
    assert_eq!(written_extension(".bashrc"), "");
    assert_eq!(written_extension("noext"), "");
    assert_eq!(written_extension("x."), "");
}
