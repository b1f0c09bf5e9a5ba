use image_read::compare::compare_buffers;
use image_read::dims::ImageDims;
use image_read::errors::TransferError;
use image_read::layout::{pad_rows, padded_bytes_per_row, unpad_rows};
use image_read::loader::{expand_loaded, load_rgb_image};
use image_read::transfer::encode_readback;

fn png_from_rgb(width: u32, height: u32, pixels: &[u8]) -> Vec<u8> {
    let mut out: Vec<u8> = Vec::new();
    let encoder = image::codecs::png::PngEncoder::new(&mut out);
    image::ImageEncoder::write_image(encoder, pixels, width, height, image::ColorType::Rgb8)
        .unwrap();
    out
}

#[test]
fn loads_known_2x2_image() {
    let pixels: [u8; 12] = [255, 0, 0, 0, 255, 0, 0, 0, 255, 255, 255, 255];
    let png = png_from_rgb(2, 2, &pixels);
    let img = load_rgb_image(&png).unwrap();
    assert_eq!(img.dims, ImageDims { nrows: 2, ncols: 2 });
    let expected: Vec<u8> = vec![
        255, 0, 0, 255, 0, 255, 0, 255, 0, 0, 255, 255, 255, 255, 255, 255,
    ];
    assert_eq!(img.rgba, expected);
    assert!(compare_buffers(&img.rgba, &expected));

    // the staged upload carries the same rows, and unpadding the
    // staged layout recovers the same buffer
    let pbr = padded_bytes_per_row(2);
    let staged = pad_rows(&img.rgba, 8, pbr, 2);
    assert_eq!(&staged[0..8], &expected[0..8]);
    assert_eq!(&staged[pbr as usize..pbr as usize + 8], &expected[8..16]);
    let back = unpad_rows(&staged, 8, pbr, 2);
    assert_eq!(back, expected);
}

#[test]
fn pixel_buffer_length_and_alpha() {
    let width: u32 = 5;
    let height: u32 = 3;
    let mut pixels: Vec<u8> = Vec::new();
    for i in 0..(3 * width * height) {
        pixels.push((i * 7 % 251) as u8);
    }
    let png = png_from_rgb(width, height, &pixels);
    let img = load_rgb_image(&png).unwrap();
    assert_eq!(img.rgba.len(), (4 * width * height) as usize);
    for (j, b) in img.rgba.iter().enumerate() {
        if j % 4 == 3 {
            assert_eq!(*b, 255);
        }
    }
}

#[test]
fn one_by_one_image_loads_and_round_trips() {
    let png = png_from_rgb(1, 1, &[7, 8, 9]);
    let img = load_rgb_image(&png).unwrap();
    assert_eq!(img.dims, ImageDims { nrows: 1, ncols: 1 });
    assert_eq!(img.rgba, vec![7, 8, 9, 255]);
    let pbr = padded_bytes_per_row(1);
    let padded = pad_rows(&img.rgba, 4, pbr, 1);
    let back = unpad_rows(&padded, 4, pbr, 1);
    assert_eq!(back, img.rgba);
}

#[test]
fn non_image_input_is_decode_error() {
    let data: Vec<u8> = b"this is just a text file, not an image".to_vec();
    assert_eq!(load_rgb_image(&data).unwrap_err(), TransferError::DecodeError);
}

#[test]
fn grayscale_input_is_format_error() {
    let mut out: Vec<u8> = Vec::new();
    let encoder = image::codecs::png::PngEncoder::new(&mut out);
    let pixels: [u8; 4] = [0, 85, 170, 255];
    image::ImageEncoder::write_image(encoder, &pixels, 2, 2, image::ColorType::L8).unwrap();
    assert_eq!(load_rgb_image(&out).unwrap_err(), TransferError::FormatError);
}

#[test]
fn rgba_input_is_format_error() {
    let mut out: Vec<u8> = Vec::new();
    let encoder = image::codecs::png::PngEncoder::new(&mut out);
    let pixels: [u8; 16] = [1, 2, 3, 4, 5, 6, 7, 8, 9, 10, 11, 12, 13, 14, 15, 16];
    image::ImageEncoder::write_image(encoder, &pixels, 2, 2, image::ColorType::Rgba8).unwrap();
    assert_eq!(load_rgb_image(&out).unwrap_err(), TransferError::FormatError);
}

#[test]
fn expand_rejects_bad_dimensions_and_lengths() {
    let empty: Vec<u8> = Vec::new();
    assert_eq!(
        expand_loaded(0, 1, &empty).unwrap_err(),
        TransferError::FormatError
    );
    assert_eq!(
        expand_loaded(1, 0, &empty).unwrap_err(),
        TransferError::FormatError
    );
    let short: Vec<u8> = vec![0; 11];
    assert_eq!(
        expand_loaded(2, 2, &short).unwrap_err(),
        TransferError::FormatError
    );
    let exact: Vec<u8> = vec![9; 12];
    let img = expand_loaded(2, 2, &exact).unwrap();
    assert_eq!(img.rgba, vec![9, 9, 9, 255, 9, 9, 9, 255, 9, 9, 9, 255, 9, 9, 9, 255]);
}

#[test]
fn encode_readback_produces_decodable_png() {
    let rgba: Vec<u8> = vec![
        255, 0, 0, 255, 0, 255, 0, 255, 0, 0, 255, 255, 255, 255, 255, 255,
    ];
    let dims = ImageDims { nrows: 2, ncols: 2 };
    let png = encode_readback(&rgba, &dims).unwrap();
    assert_ne!(png, rgba);
    assert_eq!(&png[0..4], &[137u8, 80, 78, 71]);
    let back = image::load_from_memory(&png).unwrap();
    let buffer = back.to_rgba8();
    assert_eq!(buffer.width(), 2);
    assert_eq!(buffer.height(), 2);
    assert_eq!(buffer.as_raw().as_slice(), rgba.as_slice());
}
