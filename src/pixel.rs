//! The pixel addressing engine: typed views of single pixels in a frame buffer.
//!
//! A frame buffer is a byte slice laid out row after row, `stride` bytes apart.
//! Eight-bit channels are borrowed as `&u8`; wider elements (16-bit depth and
//! luma, 32-bit float values) are borrowed as the slice of their bytes, in the
//! byte order in which the sensor wrote them.

use crate::kind::Rs2Format;
use vstd::prelude::*;
use vstd::slice::slice_subrange;

verus! {

/// One pixel of a frame buffer, borrowed from it.
///
/// `Rgb8` and `Rgba8` buffers are reported through the `Bgr8` and `Bgra8`
/// variants, each field holding the channel it is named after.
#[allow(inconsistent_fields)]
#[derive(Debug)]
pub enum PixelKind<'a> {
    /// Four bytes `y0, u, y1, v` shared by two pixels.
    Yuyv { y: &'a u8, u: &'a u8, v: &'a u8 },
    /// Four bytes `u, y0, v, y1` shared by two pixels.
    Uyvy { y: &'a u8, u: &'a u8, v: &'a u8 },
    /// Eight-bit blue, green and red channels.
    Bgr8 { b: &'a u8, g: &'a u8, r: &'a u8 },
    /// Eight-bit blue, green, red and alpha channels.
    Bgra8 { b: &'a u8, g: &'a u8, r: &'a u8, a: &'a u8 },
    /// Eight-bit red, green and blue channels.
    Rgb8 { r: &'a u8, g: &'a u8, b: &'a u8 },
    /// Eight-bit red, green, blue and alpha channels.
    Rgba8 { r: &'a u8, g: &'a u8, b: &'a u8, a: &'a u8 },
    /// One raw byte.
    Raw8 { val: &'a u8 },
    /// Eight-bit grayscale.
    Y8 { y: &'a u8 },
    /// Sixteen-bit grayscale: the two bytes of the value.
    Y16 { y: &'a [u8] },
    /// Sixteen-bit linear depth: the two bytes of the value.
    Z16 { depth: &'a [u8] },
    /// 32-bit float distance: the four bytes of the value.
    Distance { distance: &'a [u8] },
    /// 32-bit float disparity: the four bytes of the value.
    Disparity32 { disparity: &'a [u8] },
    /// Three 32-bit float coordinates: the four bytes of each.
    Xyz32f { x: &'a [u8], y: &'a [u8], z: &'a [u8] },
}

/// What a pixel holds, as values: eight-bit channels as bytes, wider ones as
/// the sequence of their bytes.
#[allow(inconsistent_fields)]
pub enum PixelValue {
    Yuyv { y: u8, u: u8, v: u8 },
    Uyvy { y: u8, u: u8, v: u8 },
    Bgr8 { b: u8, g: u8, r: u8 },
    Bgra8 { b: u8, g: u8, r: u8, a: u8 },
    Rgb8 { r: u8, g: u8, b: u8 },
    Rgba8 { r: u8, g: u8, b: u8, a: u8 },
    Raw8 { val: u8 },
    Y8 { y: u8 },
    Y16 { y: Seq<u8> },
    Z16 { depth: Seq<u8> },
    Distance { distance: Seq<u8> },
    Disparity32 { disparity: Seq<u8> },
    Xyz32f { x: Seq<u8>, y: Seq<u8>, z: Seq<u8> },
}

impl<'a> View for PixelKind<'a> {
    type V = PixelValue;

    open spec fn view(&self) -> PixelValue {
        match *self {
            PixelKind::Yuyv { y, u, v } => PixelValue::Yuyv { y: *y, u: *u, v: *v },
            PixelKind::Uyvy { y, u, v } => PixelValue::Uyvy { y: *y, u: *u, v: *v },
            PixelKind::Bgr8 { b, g, r } => PixelValue::Bgr8 { b: *b, g: *g, r: *r },
            PixelKind::Bgra8 { b, g, r, a } => PixelValue::Bgra8 { b: *b, g: *g, r: *r, a: *a },
            PixelKind::Rgb8 { r, g, b } => PixelValue::Rgb8 { r: *r, g: *g, b: *b },
            PixelKind::Rgba8 { r, g, b, a } => PixelValue::Rgba8 { r: *r, g: *g, b: *b, a: *a },
            PixelKind::Raw8 { val } => PixelValue::Raw8 { val: *val },
            PixelKind::Y8 { y } => PixelValue::Y8 { y: *y },
            PixelKind::Y16 { y } => PixelValue::Y16 { y: y@ },
            PixelKind::Z16 { depth } => PixelValue::Z16 { depth: depth@ },
            PixelKind::Distance { distance } => PixelValue::Distance { distance: distance@ },
            PixelKind::Disparity32 { disparity } => PixelValue::Disparity32 {
                disparity: disparity@,
            },
            PixelKind::Xyz32f { x, y, z } => PixelValue::Xyz32f { x: x@, y: y@, z: z@ },
        }
    }
}

/// The formats whose pixels can be addressed.
pub open spec fn is_pixel_format(format: Rs2Format) -> bool {
    match format {
        Rs2Format::Yuyv | Rs2Format::Uyvy | Rs2Format::Bgr8 | Rs2Format::Bgra8 | Rs2Format::Rgb8
        | Rs2Format::Rgba8 | Rs2Format::Raw8 | Rs2Format::Y8 | Rs2Format::Y16 | Rs2Format::Z16
        | Rs2Format::Distance | Rs2Format::Disparity32 | Rs2Format::Xyz32F => true,
        _ => false,
    }
}

/// Size in bytes of the elements through which a format's buffer is indexed:
/// wider formats index whole elements, and a row starts at a whole element.
pub open spec fn element_size(format: Rs2Format) -> nat {
    match format {
        Rs2Format::Y16 | Rs2Format::Z16 => 2,
        Rs2Format::Distance | Rs2Format::Disparity32 | Rs2Format::Xyz32F => 4,
        _ => 1,
    }
}

/// Byte offset at which the pixel at `(col, row)` starts.
///
/// Yuyv and Uyvy pack two neighbouring pixels into one group of four bytes.
/// Xyz32f steps one element, not one point, per column.
pub open spec fn pixel_offset(format: Rs2Format, stride: nat, col: nat, row: nat) -> nat {
    match format {
        Rs2Format::Yuyv | Rs2Format::Uyvy => row * stride + (col / 2) * 4,
        Rs2Format::Bgr8 | Rs2Format::Rgb8 => row * stride + col * 3,
        Rs2Format::Bgra8 | Rs2Format::Rgba8 => row * stride + col * 4,
        Rs2Format::Y16 | Rs2Format::Z16 => 2 * (row * (stride / 2) + col),
        Rs2Format::Distance | Rs2Format::Disparity32 | Rs2Format::Xyz32F => 4 * (row * (stride
            / 4) + col),
        _ => row * stride + col,
    }
}

/// Number of bytes read from the pixel's offset on.
pub open spec fn pixel_bytes(format: Rs2Format) -> nat {
    match format {
        Rs2Format::Yuyv | Rs2Format::Uyvy | Rs2Format::Bgra8 | Rs2Format::Rgba8 => 4,
        Rs2Format::Bgr8 | Rs2Format::Rgb8 => 3,
        Rs2Format::Y16 | Rs2Format::Z16 => 2,
        Rs2Format::Distance | Rs2Format::Disparity32 => 4,
        Rs2Format::Xyz32F => 12,
        _ => 1,
    }
}

/// Whether every byte that the pixel at `(col, row)` is read from lies in a
/// buffer of `len` bytes.
pub open spec fn pixel_in_bounds(format: Rs2Format, len: nat, stride: nat, col: nat, row: nat) -> bool {
    pixel_offset(format, stride, col, row) + pixel_bytes(format) <= len
}

/// The pixel at `(col, row)` of buffer `data`, read by the rules of `format`.
pub open spec fn pixel_value(format: Rs2Format, data: Seq<u8>, stride: nat, col: nat, row: nat) -> PixelValue {
    let o = pixel_offset(format, stride, col, row) as int;
    match format {
        Rs2Format::Yuyv => PixelValue::Yuyv {
            y: if row % 2 == 0 { data[o] } else { data[o + 2] },
            u: data[o + 1],
            v: data[o + 3],
        },
        Rs2Format::Uyvy => PixelValue::Uyvy {
            y: if row % 2 == 0 { data[o + 1] } else { data[o + 3] },
            u: data[o],
            v: data[o + 2],
        },
        Rs2Format::Bgr8 => PixelValue::Bgr8 { b: data[o], g: data[o + 1], r: data[o + 2] },
        Rs2Format::Rgb8 => PixelValue::Bgr8 { r: data[o], g: data[o + 1], b: data[o + 2] },
        Rs2Format::Bgra8 => PixelValue::Bgra8 {
            b: data[o],
            g: data[o + 1],
            r: data[o + 2],
            a: data[o + 3],
        },
        Rs2Format::Rgba8 => PixelValue::Bgra8 {
            r: data[o],
            g: data[o + 1],
            b: data[o + 2],
            a: data[o + 3],
        },
        Rs2Format::Raw8 => PixelValue::Raw8 { val: data[o] },
        Rs2Format::Y16 => PixelValue::Y16 { y: data.subrange(o, o + 2) },
        Rs2Format::Z16 => PixelValue::Z16 { depth: data.subrange(o, o + 2) },
        Rs2Format::Distance => PixelValue::Distance { distance: data.subrange(o, o + 4) },
        Rs2Format::Disparity32 => PixelValue::Disparity32 { disparity: data.subrange(o, o + 4) },
        Rs2Format::Xyz32F => PixelValue::Xyz32f {
            x: data.subrange(o, o + 4),
            y: data.subrange(o + 4, o + 8),
            z: data.subrange(o + 8, o + 12),
        },
        _ => PixelValue::Y8 { y: data[o] },
    }
}

/// Reads the pixel at column `col` and row `row` of `data`, laid out in
/// `format` with rows `stride_in_bytes` apart.
pub fn get_pixel<'a>(format: Rs2Format, data: &'a [u8], stride_in_bytes: usize, col: usize, row: usize) -> (r: PixelKind<'a>)
    requires
        is_pixel_format(format),
        pixel_in_bounds(format, data@.len(), stride_in_bytes as nat, col as nat, row as nat),
    ensures
        r@ == pixel_value(format, data@, stride_in_bytes as nat, col as nat, row as nat),
{
    // The slice's length fits in a usize, and so does every offset below it.
    let _len: usize = data.len();
    match format {
        Rs2Format::Yuyv => {
            let offset = row * stride_in_bytes + (col / 2) * 4;
            let y = if row % 2 == 0 { &data[offset] } else { &data[offset + 2] };
            PixelKind::Yuyv { y, u: &data[offset + 1], v: &data[offset + 3] }
        },
        Rs2Format::Uyvy => {
            let offset = row * stride_in_bytes + (col / 2) * 4;
            let y = if row % 2 == 0 { &data[offset + 1] } else { &data[offset + 3] };
            PixelKind::Uyvy { y, u: &data[offset], v: &data[offset + 2] }
        },
        Rs2Format::Bgr8 => {
            let offset = row * stride_in_bytes + col * 3;
            PixelKind::Bgr8 { b: &data[offset], g: &data[offset + 1], r: &data[offset + 2] }
        },
        Rs2Format::Bgra8 => {
            let offset = row * stride_in_bytes + col * 4;
            PixelKind::Bgra8 {
                b: &data[offset],
                g: &data[offset + 1],
                r: &data[offset + 2],
                a: &data[offset + 3],
            }
        },
        Rs2Format::Rgb8 => {
            let offset = row * stride_in_bytes + col * 3;
            PixelKind::Bgr8 { r: &data[offset], g: &data[offset + 1], b: &data[offset + 2] }
        },
        Rs2Format::Rgba8 => {
            let offset = row * stride_in_bytes + col * 4;
            PixelKind::Bgra8 {
                r: &data[offset],
                g: &data[offset + 1],
                b: &data[offset + 2],
                a: &data[offset + 3],
            }
        },
        Rs2Format::Raw8 => {
            let offset = row * stride_in_bytes + col;
            PixelKind::Raw8 { val: &data[offset] }
        },
        Rs2Format::Y8 => {
            let offset = row * stride_in_bytes + col;
            PixelKind::Y8 { y: &data[offset] }
        },
        Rs2Format::Y16 => {
            let offset = 2 * (row * (stride_in_bytes / 2) + col);
            PixelKind::Y16 { y: slice_subrange(data, offset, offset + 2) }
        },
        Rs2Format::Z16 => {
            let offset = 2 * (row * (stride_in_bytes / 2) + col);
            PixelKind::Z16 { depth: slice_subrange(data, offset, offset + 2) }
        },
        Rs2Format::Distance => {
            let offset = 4 * (row * (stride_in_bytes / 4) + col);
            PixelKind::Distance { distance: slice_subrange(data, offset, offset + 4) }
        },
        Rs2Format::Disparity32 => {
            let offset = 4 * (row * (stride_in_bytes / 4) + col);
            PixelKind::Disparity32 { disparity: slice_subrange(data, offset, offset + 4) }
        },
        _ => {
            let offset = 4 * (row * (stride_in_bytes / 4) + col);
            PixelKind::Xyz32f {
                x: slice_subrange(data, offset, offset + 4),
                y: slice_subrange(data, offset + 4, offset + 8),
                z: slice_subrange(data, offset + 8, offset + 12),
            }
        },
    }
}

/// Tells whether pixels of `format` can be addressed.
pub fn is_addressable(format: Rs2Format) -> (r: bool)
    ensures
        r == is_pixel_format(format),
{
    match format {
        Rs2Format::Yuyv | Rs2Format::Uyvy | Rs2Format::Bgr8 | Rs2Format::Bgra8 | Rs2Format::Rgb8
        | Rs2Format::Rgba8 | Rs2Format::Raw8 | Rs2Format::Y8 | Rs2Format::Y16 | Rs2Format::Z16
        | Rs2Format::Distance | Rs2Format::Disparity32 | Rs2Format::Xyz32F => true,
        _ => false,
    }
}

/// `a * b + c * d + e`, where it fits in a usize.
fn mul_add_end(a: usize, b: usize, c: usize, d: usize, e: usize) -> (r: Option<usize>)
    ensures
        r matches Some(x) ==> x == a * b + c * d + e,
        r is None ==> a * b + c * d + e > usize::MAX,
{
    let ab = match a.checked_mul(b) {
        Some(v) => v,
        None => {
            assert(0 <= c * d) by (nonlinear_arith);
            return None;
        },
    };
    let cd = match c.checked_mul(d) {
        Some(v) => v,
        None => {
            assert(0 <= a * b) by (nonlinear_arith);
            return None;
        },
    };
    match ab.checked_add(cd) {
        Some(v) => v.checked_add(e),
        None => None,
    }
}

/// `es * (a * b + c) + e`, where it fits in a usize.
fn scaled_end(a: usize, b: usize, c: usize, es: usize, e: usize) -> (r: Option<usize>)
    requires
        es == 2 || es == 4,
    ensures
        r matches Some(x) ==> x == es * (a * b + c) + e,
        r is None ==> es * (a * b + c) + e > usize::MAX,
{
    let ab = match a.checked_mul(b) {
        Some(v) => v,
        None => return None,
    };
    let abc = match ab.checked_add(c) {
        Some(v) => v,
        None => return None,
    };
    match abc.checked_mul(es) {
        Some(v) => v.checked_add(e),
        None => None,
    }
}

/// One past the last byte that the pixel at `(col, row)` is read from, where
/// that fits in a usize.
fn pixel_end(format: Rs2Format, stride: usize, col: usize, row: usize) -> (r: Option<usize>)
    requires
        is_pixel_format(format),
    ensures
        r matches Some(e) ==> e == pixel_offset(format, stride as nat, col as nat, row as nat)
            + pixel_bytes(format),
        r is None ==> pixel_offset(format, stride as nat, col as nat, row as nat) + pixel_bytes(
            format,
        ) > usize::MAX,
{
    match format {
        Rs2Format::Yuyv | Rs2Format::Uyvy => mul_add_end(row, stride, col / 2, 4, 4),
        Rs2Format::Bgr8 | Rs2Format::Rgb8 => mul_add_end(row, stride, col, 3, 3),
        Rs2Format::Bgra8 | Rs2Format::Rgba8 => mul_add_end(row, stride, col, 4, 4),
        Rs2Format::Y16 | Rs2Format::Z16 => scaled_end(row, stride / 2, col, 2, 2),
        Rs2Format::Distance | Rs2Format::Disparity32 => scaled_end(row, stride / 4, col, 4, 4),
        Rs2Format::Xyz32F => scaled_end(row, stride / 4, col, 4, 12),
        _ => mul_add_end(row, stride, col, 1, 1),
    }
}

/// Reads the pixel at column `col` and row `row` of `data`, as `get_pixel`
/// does, where the format can be addressed and the pixel lies inside the
/// buffer; nothing otherwise.
pub fn checked_pixel<'a>(format: Rs2Format, data: &'a [u8], stride_in_bytes: usize, col: usize, row: usize) -> (r: Option<PixelKind<'a>>)
    ensures
        r is Some <==> is_pixel_format(format) && pixel_in_bounds(
            format,
            data@.len(),
            stride_in_bytes as nat,
            col as nat,
            row as nat,
        ),
        r matches Some(p) ==> p@ == pixel_value(format, data@, stride_in_bytes as nat, col as nat, row as nat),
{
    if !is_addressable(format) {
        return None;
    }
    let len = data.len();
    match pixel_end(format, stride_in_bytes, col, row) {
        Some(end) => {
            if end <= len {
                Some(get_pixel(format, data, stride_in_bytes, col, row))
            } else {
                None
            }
        },
        None => None,
    }
}

/// Bytes from a row's start that its first `width` pixels are read from.
pub open spec fn row_bytes(format: Rs2Format, width: nat) -> nat {
    match format {
        Rs2Format::Yuyv | Rs2Format::Uyvy => ((width + 1) / 2) * 4,
        Rs2Format::Bgr8 | Rs2Format::Rgb8 => width * 3,
        Rs2Format::Bgra8 | Rs2Format::Rgba8 => width * 4,
        Rs2Format::Y16 | Rs2Format::Z16 => width * 2,
        Rs2Format::Distance | Rs2Format::Disparity32 => width * 4,
        Rs2Format::Xyz32F => width * 4 + 8,
        _ => width,
    }
}

/// Size and layout of a frame buffer, as reported for the frame.
#[derive(Clone, Copy, Debug, PartialEq, Eq, Hash, Structural)]
pub struct Geometry {
    pub width: usize,
    pub height: usize,
    pub stride_bytes: usize,
    pub data_size_bytes: usize,
}

impl Geometry {
    /// Whether a buffer of this geometry holds every pixel of `format` that
    /// lies inside `width` and `height`: each row holds its pixels, and the
    /// last row ends inside the data.
    pub open spec fn fits(self, format: Rs2Format) -> bool {
        &&& is_pixel_format(format)
        &&& row_bytes(format, self.width as nat) <= self.stride_bytes
        &&& self.height == 0 || (self.height - 1) * self.stride_bytes + row_bytes(
            format,
            self.width as nat,
        ) <= self.data_size_bytes
    }

    /// Tells whether this geometry fits `format` (see `fits`).
    pub fn fits_format(&self, format: Rs2Format) -> (r: bool)
        ensures
            r == self.fits(format),
    {
        let w = self.width;
        let row: Option<usize> = match format {
            Rs2Format::Yuyv | Rs2Format::Uyvy => match (w / 2 + w % 2).checked_mul(4) {
                Some(n) => Some(n),
                None => None,
            },
            Rs2Format::Bgr8 | Rs2Format::Rgb8 => w.checked_mul(3),
            Rs2Format::Bgra8 | Rs2Format::Rgba8 => w.checked_mul(4),
            Rs2Format::Y16 | Rs2Format::Z16 => w.checked_mul(2),
            Rs2Format::Distance | Rs2Format::Disparity32 => w.checked_mul(4),
            Rs2Format::Xyz32F => match w.checked_mul(4) {
                Some(n) => n.checked_add(8),
                None => None,
            },
            Rs2Format::Raw8 | Rs2Format::Y8 => Some(w),
            _ => None,
        };
        assert(w / 2 + w % 2 == (w + 1) / 2);
        match row {
            None => false,
            Some(n) => {
                if n > self.stride_bytes {
                    false
                } else if self.height == 0 {
                    true
                } else {
                    match (self.height - 1).checked_mul(self.stride_bytes) {
                        None => false,
                        Some(m) => match m.checked_add(n) {
                            None => false,
                            Some(end) => end <= self.data_size_bytes,
                        },
                    }
                }
            },
        }
    }
}

proof fn lemma_row_start(es: nat, stride: nat, row: nat)
    requires
        es > 0,
    ensures
        es * (row * (stride / es)) <= row * stride,
{
    assert(es * (stride / es) <= stride) by (nonlinear_arith)
        requires
            es > 0,
    ;
    assert(es * (row * (stride / es)) == row * (es * (stride / es))) by (nonlinear_arith);
    assert(row * (es * (stride / es)) <= row * stride) by (nonlinear_arith)
        requires
            es * (stride / es) <= stride,
    ;
}

/// In a buffer whose geometry fits the format, every pixel inside the width
/// and height is read from bytes inside the buffer, the last one included.
pub proof fn lemma_pixel_inside_buffer(format: Rs2Format, g: Geometry, col: nat, row: nat)
    requires
        g.fits(format),
        col < g.width,
        row < g.height,
    ensures
        pixel_in_bounds(format, g.data_size_bytes as nat, g.stride_bytes as nat, col, row),
{
    let stride = g.stride_bytes as nat;
    let w = g.width as nat;
    let o = pixel_offset(format, stride, col, row);
    // The pixel ends inside its row's bytes.
    let es = element_size(format);
    lemma_row_start(es, stride, row);
    assert(o + pixel_bytes(format) <= row * stride + row_bytes(format, w)) by {
        lemma_row_start(2, stride, row);
        lemma_row_start(4, stride, row);
    }
    // The row starts no later than the last row.
    assert(row * stride <= (g.height - 1) * stride) by (nonlinear_arith)
        requires
            row < g.height,
    ;
}

/// In Yuyv and Uyvy buffers the columns `2k` and `2k + 1` read the same four
/// bytes and the same pixel: which luma byte is read follows the parity of the
/// row, even rows taking the first of the group and odd rows the second.
pub proof fn lemma_packed_luma_follows_row(format: Rs2Format, data: Seq<u8>, stride: nat, k: nat, row: nat)
    requires
        format == Rs2Format::Yuyv || format == Rs2Format::Uyvy,
    ensures
        pixel_value(format, data, stride, 2 * k, row) == pixel_value(format, data, stride, 2 * k + 1, row),
        ({
            let base = (row * stride + 4 * k) as int;
            let first = if format == Rs2Format::Yuyv { base } else { base + 1 };
            match pixel_value(format, data, stride, 2 * k, row) {
                PixelValue::Yuyv { y, .. } => y == if row % 2 == 0 { data[first] } else { data[first + 2] },
                PixelValue::Uyvy { y, .. } => y == if row % 2 == 0 { data[first] } else { data[first + 2] },
                _ => false,
            }
        }),
{
    assert((2 * k) / 2 == k);
    assert((2 * k + 1) / 2 == k);
}

/// Reading an `Rgb8` buffer gives what reading it as `Bgr8` gives with the red
/// and blue channels exchanged; both come back as the `Bgr8` variant.
pub proof fn lemma_rgb8_swaps_bgr8(data: Seq<u8>, stride: nat, col: nat, row: nat)
    ensures
        match (pixel_value(Rs2Format::Rgb8, data, stride, col, row), pixel_value(Rs2Format::Bgr8, data, stride, col, row)) {
            (PixelValue::Bgr8 { b: b1, g: g1, r: r1 }, PixelValue::Bgr8 { b: b2, g: g2, r: r2 }) => r1 == b2 && g1 == g2 && b1 == r2,
            _ => false,
        },
{
}

/// Reading an `Rgba8` buffer gives what reading it as `Bgra8` gives with the
/// red and blue channels exchanged; both come back as the `Bgra8` variant.
pub proof fn lemma_rgba8_swaps_bgra8(data: Seq<u8>, stride: nat, col: nat, row: nat)
    ensures
        match (pixel_value(Rs2Format::Rgba8, data, stride, col, row), pixel_value(Rs2Format::Bgra8, data, stride, col, row)) {
            (PixelValue::Bgra8 { b: b1, g: g1, r: r1, a: a1 }, PixelValue::Bgra8 { b: b2, g: g2, r: r2, a: a2 }) => {
                r1 == b2 && g1 == g2 && b1 == r2 && a1 == a2
            },
            _ => false,
        },
{
}

} // verus!
