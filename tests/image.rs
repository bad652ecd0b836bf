use orbclient::Color;
use orbimage::{Image, ImageError};

fn c(data: u32) -> Color {
    Color { data }
}

fn values(colors: &[Color]) -> Vec<u32> {
    colors.iter().map(|c| c.data).collect()
}

#[test]
fn from_data_rejects_too_little_data() {
    let r = Image::from_data(2, 2, vec![c(1), c(1), c(1)]);
    assert!(matches!(r, Err(ImageError::DimensionMismatch)));
}

#[test]
fn from_data_rejects_too_much_data() {
    let r = Image::from_data(2, 2, vec![c(1); 5]);
    assert!(matches!(r, Err(ImageError::DimensionMismatch)));
}

#[test]
fn from_data_accepts_exact_data() {
    let img = Image::from_data(2, 2, vec![c(1), c(2), c(3), c(4)]).unwrap();
    assert_eq!(img.width(), 2);
    assert_eq!(img.height(), 2);
    assert_eq!(values(img.data()), vec![1, 2, 3, 4]);
}

#[test]
fn from_data_accepts_empty_image() {
    let img = Image::from_data(0, 7, Vec::new()).unwrap();
    assert_eq!(img.data().len(), 0);
    assert!(matches!(Image::from_data(0, 7, vec![c(1)]), Err(ImageError::DimensionMismatch)));
}

#[test]
fn from_color_fills_every_pixel() {
    let img = Image::from_color(3, 2, c(0x1234_5678));
    assert_eq!(img.data().len(), 6);
    assert!(img.data().iter().all(|p| p.data == 0x1234_5678));
}

#[test]
fn new_is_opaque_black() {
    let img = Image::new(2, 3);
    assert_eq!(values(img.data()), vec![0xFF00_0000; 6]);
}

#[test]
fn default_is_empty() {
    let img = Image::default();
    assert_eq!(img.width(), 0);
    assert_eq!(img.height(), 0);
    assert!(img.data().is_empty());
}

#[test]
fn into_data_gives_the_pixels_back() {
    let img = Image::from_data(3, 1, vec![c(7), c(8), c(9)]).unwrap();
    assert_eq!(values(&img.into_data()), vec![7, 8, 9]);
}

#[test]
fn sync_always_succeeds() {
    let mut img = Image::new(1, 1);
    assert!(img.sync());
    assert_eq!(values(img.data()), vec![0xFF00_0000]);
}

#[test]
fn set_pixel_changes_one_pixel() {
    let mut img = Image::from_color(2, 2, c(5));
    img.set_pixel(3, c(9));
    assert_eq!((img.width(), img.height()), (2, 2));
    assert_eq!(values(img.data()), vec![5, 5, 5, 9]);
}
