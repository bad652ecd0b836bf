use orbimage::{format_of_extension, format_of_lowercase, ImageError, ImageFormat};

#[test]
fn extension_case_is_ignored() {
    assert_eq!(format_of_extension(Some(Some("PNG"))).unwrap(), ImageFormat::Png);
    assert_eq!(format_of_extension(Some(Some("png"))).unwrap(), ImageFormat::Png);
    assert_eq!(format_of_extension(Some(Some("Bmp"))).unwrap(), ImageFormat::Bmp);
    assert_eq!(format_of_extension(Some(Some("JPEG"))).unwrap(), ImageFormat::Jpeg);
    assert_eq!(format_of_extension(Some(Some("jpg"))).unwrap(), ImageFormat::Jpeg);
}

#[test]
fn unknown_extension_is_unsupported() {
    assert_eq!(
        format_of_extension(Some(Some("GIF"))),
        Err(ImageError::UnsupportedFormat("gif".to_string()))
    );
}

#[test]
fn missing_extension_is_unsupported() {
    assert_eq!(format_of_extension(None), Err(ImageError::UnsupportedFormat(String::new())));
}

#[test]
fn extension_that_is_not_text_is_invalid() {
    assert_eq!(format_of_extension(Some(None)), Err(ImageError::InvalidPath));
}

#[test]
fn lowercase_dispatch_is_exact() {
    assert_eq!(format_of_lowercase("jpeg"), Ok(ImageFormat::Jpeg));
    assert_eq!(
        format_of_lowercase("PNG"),
        Err(ImageError::UnsupportedFormat("PNG".to_string()))
    );
    assert_eq!(format_of_lowercase(""), Err(ImageError::UnsupportedFormat(String::new())));
}
