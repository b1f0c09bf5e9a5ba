use image_read::dims::ImageDims;
use image_read::layout::{pad_rows, padded_bytes_per_row, unpad_rows};
use image_read::transfer::{dims_supported, ensure_directories};

#[test]
fn padded_stride_rounds_up_to_256() {
    assert_eq!(padded_bytes_per_row(1), 256);
    assert_eq!(padded_bytes_per_row(3), 256);
    assert_eq!(padded_bytes_per_row(64), 256);
    assert_eq!(padded_bytes_per_row(65), 512);
    assert_eq!(padded_bytes_per_row(8192), 32768);
}

#[test]
fn pad_rows_lays_out_rows_at_the_stride() {
    // a 3-pixel-wide, 2-row RGBA buffer: 12 tight bytes per row
    let tight: Vec<u8> = (1..=24).collect();
    let padded = pad_rows(&tight, 12, 256, 2);
    assert_eq!(padded.len(), 512);
    assert_eq!(&padded[0..12], &tight[0..12]);
    assert!(padded[12..256].iter().all(|b| *b == 0));
    assert_eq!(&padded[256..268], &tight[12..24]);
    assert!(padded[268..512].iter().all(|b| *b == 0));
}

#[test]
fn one_by_one_pixel_round_trips() {
    let tight: Vec<u8> = vec![7, 8, 9, 255];
    let pbr = padded_bytes_per_row(1);
    let padded = pad_rows(&tight, 4, pbr, 1);
    assert_eq!(padded.len(), 256);
    let back = unpad_rows(&padded, 4, pbr, 1);
    assert_eq!(back, tight);
}

#[test]
fn unaligned_width_round_trips() {
    // width 3: the tight row of 12 bytes is far below the 256-byte
    // alignment, yet the pixels survive the padded layout unchanged
    let tight: Vec<u8> = (100..=123).collect();
    let pbr = padded_bytes_per_row(3);
    let padded = pad_rows(&tight, 12, pbr, 2);
    let back = unpad_rows(&padded, 12, pbr, 2);
    assert_eq!(back, tight);
}

#[test]
fn unpad_ignores_whatever_fills_the_padding() {
    let tight: Vec<u8> = (1..=24).collect();
    let pbr = padded_bytes_per_row(3);
    let mut padded = pad_rows(&tight, 12, pbr, 2);
    for j in 0..padded.len() {
        let in_row0 = j < 12;
        let in_row1 = (256..268).contains(&j);
        if !in_row0 && !in_row1 {
            padded[j] = 0xAB;
        }
    }
    let back = unpad_rows(&padded, 12, pbr, 2);
    assert_eq!(back, tight);
}

#[test]
fn num_pixels_multiplies_the_sides() {
    let dims = ImageDims { nrows: 3, ncols: 2 };
    assert_eq!(dims.num_pixels(), 6);
    let one = ImageDims { nrows: 1, ncols: 1 };
    assert_eq!(one.num_pixels(), 1);
}

#[test]
fn dims_supported_accepts_positive_in_range_sizes() {
    assert!(dims_supported(&ImageDims { nrows: 1, ncols: 1 }));
    assert!(dims_supported(&ImageDims { nrows: 2, ncols: 3 }));
    assert!(dims_supported(&ImageDims { nrows: 8192, ncols: 8192 }));
    assert!(!dims_supported(&ImageDims { nrows: 0, ncols: 5 }));
    assert!(!dims_supported(&ImageDims { nrows: 5, ncols: 0 }));
    assert!(!dims_supported(&ImageDims { nrows: 8193, ncols: 1 }));
    assert!(!dims_supported(&ImageDims { nrows: 1, ncols: 8193 }));
}

#[test]
fn run_directories_are_trace_then_outputs() {
    let dirs = ensure_directories();
    assert_eq!(dirs, vec!["trace", "outputs"]);
}
