//! A minimal decoder for a constrained 24-bit raster format.
//!
//! The decoder reads the standard container fields at their fixed byte
//! positions — color depth, declared file size, pixel-data offset, image
//! data size and height — and copies an 8x8 block of pixel triples into
//! the color buffer. Pixel data is stored in BGR channel order with the
//! bottom row first, so the copy reorders the channels and flips the rows
//! to show the image right-side up. Only a color depth of 24 bits is
//! supported; a mismatch of the declared sizes is not fatal, and the copy
//! proceeds best-effort as long as enough pixel bytes are present.

use vstd::prelude::*;

use crate::buffer::ColorBuffer;

verus! {

/// The 16-bit little-endian integer at position `i` of the bytes.
pub open spec fn spec_le16(bytes: Seq<u8>, i: int) -> int {
    bytes[i] + 0x100 * bytes[i + 1]
}

/// The 32-bit little-endian integer at position `i` of the bytes.
pub open spec fn spec_le32(bytes: Seq<u8>, i: int) -> int {
    bytes[i] + 0x100 * bytes[i + 1] + 0x1_0000 * bytes[i + 2] + 0x100_0000 * bytes[i + 3]
}

/// The 16-bit big-endian integer at position `i` of the bytes.
pub open spec fn spec_be16(bytes: Seq<u8>, i: int) -> int {
    0x100 * bytes[i] + bytes[i + 1]
}

/// The color depth field of a raster file, in bits per pixel.
pub open spec fn spec_color_depth(bytes: Seq<u8>) -> int {
    spec_le16(bytes, 28)
}

/// The declared total file size field of a raster file.
pub open spec fn spec_file_size(bytes: Seq<u8>) -> int {
    spec_le32(bytes, 2)
}

/// The pixel-data offset field of a raster file.
pub open spec fn spec_pixel_offset(bytes: Seq<u8>) -> int {
    spec_le32(bytes, 10)
}

/// The image data size field of a raster file.
pub open spec fn spec_image_size(bytes: Seq<u8>) -> int {
    spec_le32(bytes, 34)
}

/// The height field of a raster file.
pub open spec fn spec_height(bytes: Seq<u8>) -> int {
    spec_be16(bytes, 22)
}

/// The number of header bytes the decoder reads.
pub const HEADER_LEN: usize = 38;

/// The number of pixel bytes the decoder copies: an 8x8 block of
/// three-byte pixels.
pub const PIXEL_BYTES: usize = 192;

/// The color shown at the display cell `(x, y)` after decoding: the pixel
/// triple of source row `7 - y` (the source stores the bottom row first),
/// column `x`, with its BGR bytes reordered to RGB.
pub open spec fn spec_bitmap_pixel(bytes: Seq<u8>, x: int, y: int) -> (u8, u8, u8) {
    let i = spec_pixel_offset(bytes) + ((7 - y) * 8 + x) * 3;
    (bytes[i + 2], bytes[i + 1], bytes[i])
}

/// The image width a raster file declares, computed from its image data
/// size (three bytes per pixel) and its height.
pub open spec fn spec_bitmap_width(image_size: int, height: int) -> int {
    image_size / 3 / height
}

/// Compute the image width a raster file declares from its image data
/// size and its height.
pub fn bitmap_width(image_size: u32, height: u32) -> (w: u32)
    requires
        height != 0,
    ensures
        w == spec_bitmap_width(image_size as int, height as int),
{
    (image_size / 3) / height
}

/// Why a raster file was rejected.
#[derive(Clone, Copy, Debug, PartialEq, Eq, Structural)]
pub enum BitmapError {
    /// The bytes end before the header fields do.
    TooShort,
    /// The color depth field is not 24 bits, the only supported depth.
    UnsupportedColorDepth,
    /// The bytes end before the 8x8 block of pixel data does.
    MissingPixelData,
}

/// The decoded header fields of a raster file.
#[derive(Clone, Copy, Debug, PartialEq, Eq, Structural)]
pub struct BitmapHeader {
    /// Color depth in bits per pixel.
    pub color_depth: u16,
    /// Declared total file size.
    pub file_size: u32,
    /// Position of the first pixel byte.
    pub pixel_offset: u32,
    /// Declared size of the image data.
    pub image_size: u32,
    /// Image height in pixels.
    pub height: u16,
}

/// Read the 16-bit little-endian integer at position `i`.
fn read_le16(bytes: &Vec<u8>, i: usize) -> (v: u16)
    requires
        i + 2 <= bytes@.len(),
    ensures
        v == spec_le16(bytes@, i as int),
{
    // Binds the vector length so its usize bound covers the positions read.
    let _n = bytes.len();
    bytes[i] as u16 + 0x100 * (bytes[i + 1] as u16)
}

/// Read the 32-bit little-endian integer at position `i`.
fn read_le32(bytes: &Vec<u8>, i: usize) -> (v: u32)
    requires
        i + 4 <= bytes@.len(),
    ensures
        v == spec_le32(bytes@, i as int),
{
    // Binds the vector length so its usize bound covers the positions read.
    let _n = bytes.len();
    bytes[i] as u32 + 0x100 * (bytes[i + 1] as u32) + 0x1_0000 * (bytes[i + 2] as u32) + 0x100_0000
        * (bytes[i + 3] as u32)
}

/// Read the 16-bit big-endian integer at position `i`.
fn read_be16(bytes: &Vec<u8>, i: usize) -> (v: u16)
    requires
        i + 2 <= bytes@.len(),
    ensures
        v == spec_be16(bytes@, i as int),
{
    // Binds the vector length so its usize bound covers the positions read.
    let _n = bytes.len();
    0x100 * (bytes[i] as u16) + bytes[i + 1] as u16
}

/// Decode the header fields of a raster file from their fixed positions.
pub fn parse_bitmap_header(bytes: &Vec<u8>) -> (h: BitmapHeader)
    requires
        bytes@.len() >= HEADER_LEN,
    ensures
        h.color_depth == spec_color_depth(bytes@),
        h.file_size == spec_file_size(bytes@),
        h.pixel_offset == spec_pixel_offset(bytes@),
        h.image_size == spec_image_size(bytes@),
        h.height == spec_height(bytes@),
{
    BitmapHeader {
        color_depth: read_le16(bytes, 28),
        file_size: read_le32(bytes, 2),
        pixel_offset: read_le32(bytes, 10),
        image_size: read_le32(bytes, 34),
        height: read_be16(bytes, 22),
    }
}

impl ColorBuffer {
    /// Draw a raster file with a color depth of 24 bits.
    ///
    /// The 8x8 block of pixels at the file's pixel-data offset is copied
    /// into the buffer with the channel reorder and vertical flip
    /// described in [`spec_bitmap_pixel`]. The declared file and image
    /// sizes are not checked: a mismatch means the image may be
    /// defective, and the copy proceeds best-effort. Bytes with an
    /// unsupported color depth or too few pixel bytes are rejected by
    /// [`try_draw_bitmap`](Self::try_draw_bitmap), which reports the
    /// reason instead of demanding it up front.
    pub fn draw_bitmap(&mut self, bitmap: &Vec<u8>)
        requires
            old(self).wf(),
            bitmap@.len() >= HEADER_LEN,
            spec_color_depth(bitmap@) == 24,
            spec_pixel_offset(bitmap@) + PIXEL_BYTES <= bitmap@.len(),
        ensures
            final(self).wf(),
            forall|x: int, y: int|
                0 <= x < 8 && 0 <= y < 8 ==> final(self).color_at(x, y) == spec_bitmap_pixel(
                    bitmap@,
                    x,
                    y,
                ),
    {
        // Binds the vector length so its usize bound covers the positions read.
        let _n = bitmap.len();
        let offset = read_le32(bitmap, 10) as usize;
        let mut x: usize = 0;
        while x < 8
            invariant
                self.wf(),
                bitmap@.len() >= HEADER_LEN,
                offset == spec_pixel_offset(bitmap@),
                offset + PIXEL_BYTES <= bitmap@.len(),
                bitmap@.len() <= usize::MAX,
                x <= 8,
                forall|xi: int, yi: int|
                    0 <= xi < x && 0 <= yi < 8 ==> self.color_at(xi, yi) == spec_bitmap_pixel(
                        bitmap@,
                        xi,
                        yi,
                    ),
            decreases 8 - x,
        {
            let mut row: usize = 0;
            while row < 8
                invariant
                    self.wf(),
                    bitmap@.len() >= HEADER_LEN,
                    offset == spec_pixel_offset(bitmap@),
                    offset + PIXEL_BYTES <= bitmap@.len(),
                    bitmap@.len() <= usize::MAX,
                    x < 8,
                    row <= 8,
                    forall|xi: int, yi: int|
                        0 <= xi < x && 0 <= yi < 8 ==> self.color_at(xi, yi) == spec_bitmap_pixel(
                            bitmap@,
                            xi,
                            yi,
                        ),
                    forall|yi: int|
                        8 - row <= yi < 8 ==> self.color_at(x as int, yi) == spec_bitmap_pixel(
                            bitmap@,
                            x as int,
                            yi,
                        ),
                decreases 8 - row,
            {
                let i = offset + (row * 8 + x) * 3;
                let y = 7 - row;
                self.set(x, y, (bitmap[i + 2], bitmap[i + 1], bitmap[i]));
                row = row + 1;
            }
            x = x + 1;
        }
    }

    /// Validate a raster file and draw it if it is acceptable.
    ///
    /// The bytes are rejected when the header is incomplete, when the
    /// color depth is not 24 bits (the only supported depth), or when
    /// fewer than an 8x8 block of pixel bytes follow the pixel-data
    /// offset; the buffer is then left unchanged. A declared file or
    /// image size that does not match the bytes is not checked and never
    /// rejected: the image is drawn best-effort.
    pub fn try_draw_bitmap(&mut self, bitmap: &Vec<u8>) -> (r: Result<(), BitmapError>)
        requires
            old(self).wf(),
        ensures
            final(self).wf(),
            bitmap@.len() < HEADER_LEN <==> r == Result::<(), BitmapError>::Err(
                BitmapError::TooShort,
            ),
            bitmap@.len() >= HEADER_LEN && spec_color_depth(bitmap@) != 24 <==> r
                == Result::<(), BitmapError>::Err(BitmapError::UnsupportedColorDepth),
            bitmap@.len() >= HEADER_LEN && spec_color_depth(bitmap@) == 24 && spec_pixel_offset(
                bitmap@,
            ) + PIXEL_BYTES > bitmap@.len() <==> r == Result::<(), BitmapError>::Err(
                BitmapError::MissingPixelData,
            ),
            r is Err ==> final(self)@ == old(self)@,
            r is Ok ==> forall|x: int, y: int|
                0 <= x < 8 && 0 <= y < 8 ==> final(self).color_at(x, y) == spec_bitmap_pixel(
                    bitmap@,
                    x,
                    y,
                ),
    {
        if bitmap.len() < HEADER_LEN {
            return Err(BitmapError::TooShort);
        }
        let header = parse_bitmap_header(bitmap);
        if header.color_depth != 24 {
            return Err(BitmapError::UnsupportedColorDepth);
        }
        if bitmap.len() < PIXEL_BYTES || bitmap.len() - PIXEL_BYTES < header.pixel_offset as usize {
            return Err(BitmapError::MissingPixelData);
        }
        self.draw_bitmap(bitmap);
        Ok(())
    }
}

} // verus!
