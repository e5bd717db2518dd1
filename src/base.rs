//! Plain data shared across the library: resolutions, stream descriptions and
//! whole-image views.

use crate::kind::{Rs2Format, Rs2StreamKind};
use vstd::prelude::*;
use vstd::slice::{slice_subrange, slice_to_vec};

verus! {

/// Width and height of a frame.
#[derive(Clone, Copy, Debug, PartialEq, Eq, Hash, Structural)]
pub struct Resolution {
    pub width: usize,
    pub height: usize,
}

/// Description of the stream that a frame belongs to.
#[derive(Clone, Copy, Debug, PartialEq, Eq, Hash, Structural)]
pub struct StreamProfileData {
    pub stream: Rs2StreamKind,
    pub format: Rs2Format,
    pub index: usize,
    pub unique_id: i32,
    pub framerate: i32,
}

/// A whole image, `width` by `height`, over a buffer of channel values.
#[derive(Clone, Debug)]
pub struct ImageView<'a, T> {
    pub width: u32,
    pub height: u32,
    pub data: &'a [T],
}

/// An image of a frame, borrowed from the frame's buffer.
#[derive(Clone, Debug)]
pub enum Rs2Image<'a> {
    Bgr8(ImageView<'a, u8>),
    Bgra8(ImageView<'a, u8>),
    Rgb8(ImageView<'a, u8>),
    Rgba8(ImageView<'a, u8>),
    Luma16(ImageView<'a, u16>),
}

/// An image that owns its channel values.
#[derive(Clone, Debug)]
pub struct OwnedBuffer<T> {
    pub width: u32,
    pub height: u32,
    pub data: Vec<T>,
}

/// An owned copy of an [`Rs2Image`].
#[derive(Clone, Debug)]
pub enum OwnedImage {
    Bgr8(OwnedBuffer<u8>),
    Bgra8(OwnedBuffer<u8>),
    Rgb8(OwnedBuffer<u8>),
    Rgba8(OwnedBuffer<u8>),
    Luma16(OwnedBuffer<u16>),
}

/// Number of values that an image of `width` by `height` pixels with
/// `channels` values per pixel holds.
pub open spec fn sample_count(width: u32, height: u32, channels: nat) -> nat {
    width as nat * height as nat * channels
}

impl<'a, T> ImageView<'a, T> {
    /// Whether the buffer holds every value of the image: at least
    /// `width * height * channels` of them.
    pub open spec fn holds(self, channels: nat) -> bool {
        sample_count(self.width, self.height, channels) <= self.data@.len()
    }
}

impl<'a> Rs2Image<'a> {
    /// Values per pixel of the image's layout.
    pub open spec fn channels(self) -> nat {
        match self {
            Rs2Image::Bgr8(_) | Rs2Image::Rgb8(_) => 3,
            Rs2Image::Bgra8(_) | Rs2Image::Rgba8(_) => 4,
            Rs2Image::Luma16(_) => 1,
        }
    }

    /// Whether the image's buffer holds all of its values.
    pub open spec fn wf(self) -> bool {
        match self {
            Rs2Image::Bgr8(v) | Rs2Image::Bgra8(v) | Rs2Image::Rgb8(v) | Rs2Image::Rgba8(v) => v.holds(self.channels()),
            Rs2Image::Luma16(v) => v.holds(self.channels()),
        }
    }
}

/// Whether `owned` is the image of `view`: same dimensions, and the first
/// `width * height * channels` values of the view's buffer.
pub open spec fn same_buffer<T>(owned: OwnedBuffer<T>, view: ImageView<'_, T>, channels: nat) -> bool {
    &&& owned.width == view.width
    &&& owned.height == view.height
    &&& owned.data@ == view.data@.subrange(0, sample_count(view.width, view.height, channels) as int)
}

/// Whether `owned` is a copy of `image`: same layout, dimensions and values.
pub open spec fn is_copy_of(owned: OwnedImage, image: Rs2Image<'_>) -> bool {
    match (owned, image) {
        (OwnedImage::Bgr8(o), Rs2Image::Bgr8(v)) => same_buffer(o, v, 3),
        (OwnedImage::Bgra8(o), Rs2Image::Bgra8(v)) => same_buffer(o, v, 4),
        (OwnedImage::Rgb8(o), Rs2Image::Rgb8(v)) => same_buffer(o, v, 3),
        (OwnedImage::Rgba8(o), Rs2Image::Rgba8(v)) => same_buffer(o, v, 4),
        (OwnedImage::Luma16(o), Rs2Image::Luma16(v)) => same_buffer(o, v, 1),
        _ => false,
    }
}

/// The number of values of the view's image, where its buffer holds them
/// all; nothing where it does not.
fn checked_sample_count<T>(view: &ImageView<'_, T>, channels: usize) -> (r: Option<usize>)
    requires
        1 <= channels <= 4,
    ensures
        r is Some <==> view.holds(channels as nat),
        r matches Some(n) ==> n == sample_count(view.width, view.height, channels as nat),
{
    let len = view.data.len();
    let w = view.width as usize;
    let h = view.height as usize;
    match w.checked_mul(h) {
        Some(wh) => match wh.checked_mul(channels) {
            Some(n) => {
                if n <= len {
                    Some(n)
                } else {
                    None
                }
            },
            None => None,
        },
        None => {
            assert(w * h <= w * h * channels) by (nonlinear_arith)
                requires
                    channels >= 1,
            ;
            None
        },
    }
}

fn copy_buffer<T: Copy>(view: &ImageView<'_, T>, channels: usize) -> (r: OwnedBuffer<T>)
    requires
        1 <= channels <= 4,
        view.holds(channels as nat),
    ensures
        same_buffer(r, *view, channels as nat),
{
    let n = match checked_sample_count(view, channels) {
        Some(n) => n,
        None => 0,
    };
    OwnedBuffer { width: view.width, height: view.height, data: slice_to_vec(slice_subrange(view.data, 0, n)) }
}

impl<'a> Rs2Image<'a> {
    /// Whether the image's buffer holds all of its values (see `wf`).
    pub fn is_well_formed(&self) -> (r: bool)
        ensures
            r == self.wf(),
    {
        match self {
            Rs2Image::Bgr8(v) | Rs2Image::Rgb8(v) => checked_sample_count(v, 3).is_some(),
            Rs2Image::Bgra8(v) | Rs2Image::Rgba8(v) => checked_sample_count(v, 4).is_some(),
            Rs2Image::Luma16(v) => checked_sample_count(v, 1).is_some(),
        }
    }

    /// Creates an owned image by copying the image's values out of the
    /// underlying buffer; values past the image's end are left behind.
    pub fn to_owned(&self) -> (r: OwnedImage)
        requires
            self.wf(),
        ensures
            is_copy_of(r, *self),
    {
        match self {
            Rs2Image::Bgr8(v) => OwnedImage::Bgr8(copy_buffer(v, 3)),
            Rs2Image::Bgra8(v) => OwnedImage::Bgra8(copy_buffer(v, 4)),
            Rs2Image::Rgb8(v) => OwnedImage::Rgb8(copy_buffer(v, 3)),
            Rs2Image::Rgba8(v) => OwnedImage::Rgba8(copy_buffer(v, 4)),
            Rs2Image::Luma16(v) => OwnedImage::Luma16(copy_buffer(v, 1)),
        }
    }
}

/// Whether `bytes` can be handed to the native layer as a C string: it holds
/// no zero byte.
pub open spec fn is_nul_free(bytes: Seq<u8>) -> bool {
    forall|i: int| 0 <= i < bytes.len() ==> bytes[i] != 0
}

/// Tells whether `bytes` holds no zero byte, and so can become a C string.
pub fn nul_free(bytes: &[u8]) -> (r: bool)
    ensures
        r == is_nul_free(bytes@),
{
    let mut i: usize = 0;
    while i < bytes.len()
        invariant
            i <= bytes@.len(),
            is_nul_free(bytes@.subrange(0, i as int)),
        decreases bytes@.len() - i,
    {
        if bytes[i] == 0 {
            return false;
        }
        assert(bytes@.subrange(0, i as int + 1) =~= bytes@.subrange(0, i as int).push(bytes@[i as int]));
        i = i + 1;
    }
    assert(bytes@.subrange(0, i as int) =~= bytes@);
    true
}

} // verus!
