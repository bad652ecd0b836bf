use orbclient::Color;
use orbimage::pixels::{to_bytes, to_colors};
use orbimage::{Image, ImageError, ResizeType};

const ALL: [ResizeType; 7] = [
    ResizeType::Point,
    ResizeType::Triangle,
    ResizeType::Catrom,
    ResizeType::Mitchell,
    ResizeType::BSpline,
    ResizeType::Gaussian,
    ResizeType::Lanczos3,
];

#[test]
fn resize_gives_the_requested_size_for_every_filter() {
    let img = Image::from_color(4, 4, Color { data: 0xFF10_2030 });
    for kind in ALL {
        let r = img.resize(2, 3, kind).unwrap();
        assert_eq!((r.width(), r.height(), r.data().len()), (2, 3, 6));
    }
}

#[test]
fn resize_to_nothing_is_empty() {
    let img = Image::new(4, 4);
    for kind in ALL {
        let r = img.resize(0, 0, kind).unwrap();
        assert_eq!((r.width(), r.height(), r.data().len()), (0, 0, 0));
        let r = img.resize(5, 0, kind).unwrap();
        assert_eq!((r.width(), r.height(), r.data().len()), (5, 0, 0));
    }
}

#[test]
fn resize_of_empty_image_fails() {
    let img = Image::default();
    assert!(matches!(img.resize(2, 2, ResizeType::Point), Err(ImageError::ResizeFailure)));
}

#[test]
fn point_resize_keeps_a_solid_color() {
    let img = Image::from_color(2, 2, Color { data: 0x8040_20C0 });
    let r = img.resize(4, 4, ResizeType::Point).unwrap();
    assert!(r.data().iter().all(|p| p.data == 0x8040_20C0));
}

#[test]
fn point_resize_takes_only_source_pixels() {
    let data = vec![Color { data: 0xFF00_0001 }, Color { data: 0xFF00_0002 }];
    let img = Image::from_data(2, 1, data).unwrap();
    let r = img.resize(4, 1, ResizeType::Point).unwrap();
    let got: Vec<u32> = r.data().iter().map(|p| p.data).collect();
    assert_eq!(got.len(), 4);
    assert_eq!(got[0], 0xFF00_0001);
    assert_eq!(got[3], 0xFF00_0002);
    assert!(got.iter().all(|v| *v == 0xFF00_0001 || *v == 0xFF00_0002));
}

#[test]
fn colors_lay_out_least_significant_byte_first() {
    let bytes = to_bytes(&[Color { data: 0x1122_3344 }, Color { data: 0xAABB_CCDD }]);
    assert_eq!(bytes, vec![0x44, 0x33, 0x22, 0x11, 0xDD, 0xCC, 0xBB, 0xAA]);
    let back: Vec<u32> = to_colors(&bytes).iter().map(|p| p.data).collect();
    assert_eq!(back, vec![0x1122_3344, 0xAABB_CCDD]);
}

#[test]
fn from_rgba_bytes_checks_the_length() {
    let img = Image::from_rgba_bytes(1, 1, &[1, 2, 3, 4]).unwrap();
    assert_eq!(img.data()[0].data, 0x0403_0201);
    assert!(matches!(Image::from_rgba_bytes(1, 1, &[1, 2, 3]), Err(ImageError::DimensionMismatch)));
    assert!(matches!(Image::from_rgba_bytes(1, 1, &[0; 8]), Err(ImageError::DimensionMismatch)));
}

#[test]
fn resize_up_and_down_gives_exact_sizes() {
    let img = Image::new(3, 2);
    let r = img.resize(6, 4, ResizeType::Point).unwrap();
    assert_eq!((r.width(), r.height(), r.data().len()), (6, 4, 24));
    let img = Image::from_color(4, 4, Color::rgb(10, 20, 30));
    let r = img.resize(2, 1, ResizeType::Lanczos3).unwrap();
    assert_eq!((r.width(), r.height(), r.data().len()), (2, 1, 2));
}
