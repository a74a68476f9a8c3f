use std::io::Cursor;

use hyper_rhi::texture::{load_texture, texture_data, DecodedImage, TextureError};

fn png(width: u32, height: u32, pixels: Vec<u8>) -> Vec<u8> {
    let image = image::RgbaImage::from_raw(width, height, pixels).unwrap();
    let mut file = Cursor::new(Vec::new());
    image.write_to(&mut file, image::ImageFormat::Png).unwrap();
    file.into_inner()
}

#[test]
fn decoded_texture_has_four_bytes_a_pixel() {
    let pixels: Vec<u8> = (0..2 * 3 * 4).map(|byte| byte as u8 * 7).collect();
    let file = png(2, 3, pixels.clone());
    assert_ne!(file, pixels);
    let data = load_texture(&file).unwrap();
    assert_eq!((data.width, data.height), (2, 3));
    assert_eq!(data.size, 24);
    assert_eq!(data.pixels, pixels);
}

#[test]
fn bytes_that_are_no_image_are_undecodable() {
    assert!(matches!(load_texture(&vec![1, 2, 3, 4]), Err(TextureError::Undecodable)));
    assert!(matches!(load_texture(&Vec::new()), Err(TextureError::Undecodable)));
}

#[test]
fn image_without_alpha_is_refused() {
    let image = image::RgbImage::from_raw(2, 2, vec![9; 12]).unwrap();
    let mut file = Cursor::new(Vec::new());
    image.write_to(&mut file, image::ImageFormat::Png).unwrap();
    assert!(matches!(
        load_texture(&file.into_inner()),
        Err(TextureError::NotRgba8 { channels: 3, bytes_per_pixel: 3 })
    ));
}

#[test]
fn sixteen_bit_image_of_four_bytes_a_pixel_is_refused() {
    type GrayAlpha16 = image::ImageBuffer<image::LumaA<u16>, Vec<u16>>;
    let image = GrayAlpha16::from_raw(2, 1, vec![0x0102, 0x0304, 0x0506, 0x0708]).unwrap();
    let mut file = Cursor::new(Vec::new());
    image.write_to(&mut file, image::ImageFormat::Png).unwrap();
    assert!(matches!(
        load_texture(&file.into_inner()),
        Err(TextureError::NotRgba8 { channels: 2, bytes_per_pixel: 4 })
    ));
    type Rgba16 = image::ImageBuffer<image::Rgba<u16>, Vec<u16>>;
    let image = Rgba16::from_raw(1, 1, vec![1, 2, 3, 4]).unwrap();
    let mut file = Cursor::new(Vec::new());
    image.write_to(&mut file, image::ImageFormat::Png).unwrap();
    assert!(matches!(
        load_texture(&file.into_inner()),
        Err(TextureError::NotRgba8 { channels: 4, bytes_per_pixel: 8 })
    ));
}

fn decoded(width: u32, height: u32, channels: u8, bytes_per_pixel: u8, bytes: Vec<u8>) -> DecodedImage {
    DecodedImage { width, height, channels, bytes_per_pixel, bytes }
}

#[test]
fn texture_data_checks_the_layout() {
    let data = texture_data(decoded(1, 2, 4, 4, vec![1, 2, 3, 4, 5, 6, 7, 8])).unwrap();
    assert_eq!((data.width, data.height, data.size), (1, 2, 8));
    assert_eq!(data.pixels, vec![1, 2, 3, 4, 5, 6, 7, 8]);
    assert!(matches!(
        texture_data(decoded(1, 2, 4, 4, vec![0; 7])),
        Err(TextureError::WrongLength { expected: 8, found: 7 })
    ));
    assert!(matches!(
        texture_data(decoded(u32::MAX, u32::MAX, 4, 4, Vec::new())),
        Err(TextureError::TooLarge)
    ));
    let empty = texture_data(decoded(0, 5, 4, 4, Vec::new())).unwrap();
    assert_eq!(empty.size, 0);
}

#[test]
fn texture_data_takes_four_channels_of_eight_bits_only() {
    // Two channels of sixteen bits are four bytes to the pixel as well.
    assert!(matches!(
        texture_data(decoded(1, 1, 2, 4, vec![1, 2, 3, 4])),
        Err(TextureError::NotRgba8 { channels: 2, bytes_per_pixel: 4 })
    ));
    assert!(matches!(
        texture_data(decoded(1, 1, 4, 8, vec![0; 8])),
        Err(TextureError::NotRgba8 { channels: 4, bytes_per_pixel: 8 })
    ));
    assert!(matches!(
        texture_data(decoded(1, 1, 3, 3, vec![0; 3])),
        Err(TextureError::NotRgba8 { channels: 3, bytes_per_pixel: 3 })
    ));
    assert!(matches!(
        texture_data(decoded(u32::MAX, u32::MAX, 1, 1, Vec::new())),
        Err(TextureError::NotRgba8 { channels: 1, bytes_per_pixel: 1 })
    ));
    assert!(texture_data(decoded(1, 1, 4, 4, vec![0; 4])).is_ok());
}
