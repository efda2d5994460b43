//! Raster decoding behavior.

use led_matrix::bitmap::{bitmap_width, parse_bitmap_header, BitmapError};
use led_matrix::buffer::ColorBuffer;

/// Build a well-formed 24-bit 8x8 raster file: the header fields at their
/// fixed positions, then 192 pixel bytes starting at offset 54.
fn sample_bitmap() -> Vec<u8> {
    let mut b = vec![0u8; 54 + 192];
    b[0] = b'B';
    b[1] = b'M';
    // Declared file size, little-endian.
    b[2] = 246;
    // Pixel-data offset, little-endian.
    b[10] = 54;
    // Height, big-endian.
    b[23] = 8;
    // Color depth, little-endian.
    b[28] = 24;
    // Image data size, little-endian.
    b[34] = 192;
    // Distinct pixel bytes so every position is checked.
    for i in 0..192 {
        b[54 + i] = (i * 7 % 251) as u8;
    }
    b
}

#[test]
fn parse_header_reads_the_fixed_fields() {
    let b = sample_bitmap();
    let h = parse_bitmap_header(&b);
    assert_eq!(h.color_depth, 24);
    assert_eq!(h.file_size, 246);
    assert_eq!(h.pixel_offset, 54);
    assert_eq!(h.image_size, 192);
    assert_eq!(h.height, 8);
}

#[test]
fn width_is_image_size_over_three_per_pixel_over_height() {
    assert_eq!(bitmap_width(192, 8), 8);
    assert_eq!(bitmap_width(96, 8), 4);
    assert_eq!(bitmap_width(300, 10), 10);
}

#[test]
fn decode_reproduces_pixels_with_flip_and_channel_reorder() {
    let b = sample_bitmap();
    let mut buffer = ColorBuffer::new();
    assert_eq!(buffer.try_draw_bitmap(&b), Ok(()));
    for x in 0..8 {
        for y in 0..8 {
            // The source stores the bottom row first in BGR order; the
            // display shows it right-side up in RGB.
            let i = 54 + ((7 - y) * 8 + x) * 3;
            assert_eq!(buffer.get(x, y), (b[i + 2], b[i + 1], b[i]));
        }
    }
}

#[test]
fn wrong_color_depth_is_rejected() {
    let mut b = sample_bitmap();
    b[28] = 32;
    let mut buffer = ColorBuffer::new();
    assert_eq!(
        buffer.try_draw_bitmap(&b),
        Err(BitmapError::UnsupportedColorDepth)
    );
}

#[test]
fn declared_size_mismatch_still_decodes() {
    // A wrong declared file size means the image may be defective, but
    // decoding proceeds best-effort.
    let mut b = sample_bitmap();
    b[2] = 0;
    b[3] = 4;
    let mut buffer = ColorBuffer::new();
    assert_eq!(buffer.try_draw_bitmap(&b), Ok(()));
    let i = 54 + 7 * 8 * 3;
    assert_eq!(buffer.get(0, 0), (b[i + 2], b[i + 1], b[i]));
}

#[test]
fn truncated_header_is_rejected() {
    let b = vec![0u8; 20];
    let mut buffer = ColorBuffer::new();
    assert_eq!(buffer.try_draw_bitmap(&b), Err(BitmapError::TooShort));
}

#[test]
fn truncated_pixel_data_is_rejected() {
    let mut b = sample_bitmap();
    b.truncate(54 + 191);
    let mut buffer = ColorBuffer::new();
    assert_eq!(
        buffer.try_draw_bitmap(&b),
        Err(BitmapError::MissingPixelData)
    );
}
