//! Frame categories, classification of native frame handles, and the
//! accessors that every categorized frame offers.
//!
//! A native frame handle carries no type: the native layer reports its
//! extension and its stream's kind at run time. A typed [`Frame`] is made from
//! a handle only once those tags match the frame's category, and owns the
//! handle from then on.

use crate::base::StreamProfileData;
use crate::kind::{
    metadata_index, Rs2Exception, Rs2Extension, Rs2Format, Rs2FrameMetadata, Rs2StreamKind,
    Rs2TimestampDomain, METADATA_KIND_COUNT,
};
use crate::pixel::{
    get_pixel, is_addressable, is_pixel_format, lemma_pixel_inside_buffer, pixel_value, Geometry,
    PixelKind,
};
use std::marker::PhantomData;
use vstd::prelude::*;

verus! {

/// How many bits are in a byte.
pub const BITS_PER_BYTE: i32 = 8;

/// Occurs when a frame type cannot be constructed from the given data.
#[derive(Clone, Debug, PartialEq, Eq)]
pub enum FrameConstructionError {
    /// Could not get frame width.
    CouldNotGetWidth(Rs2Exception, String),
    /// Could not get frame height.
    CouldNotGetHeight(Rs2Exception, String),
    /// Could not get the pixel stride.
    CouldNotGetStride(Rs2Exception, String),
    /// Could not get the bit count per pixel.
    CouldNotGetBitsPerPixel(Rs2Exception, String),
    /// Could not get the frame timestamp.
    CouldNotGetTimestamp(Rs2Exception, String),
    /// Could not get the clock to which the frame timestamp is relative.
    CouldNotGetTimestampDomain(Rs2Exception, String),
    /// Could not get the stream profile that describes the frame.
    CouldNotGetFrameStreamProfile(Rs2Exception, String),
    /// Could not get the total data size of the frame in bytes.
    CouldNotGetDataSize(Rs2Exception, String),
    /// Could not get the data of the frame.
    CouldNotGetData(Rs2Exception, String),
    /// Could not get the number of points in a points frame.
    CouldNotGetPointCount(Rs2Exception, String),
}

/// Occurs when certain data cannot be derived from a depth frame.
#[derive(Clone, Debug, PartialEq, Eq)]
pub enum DepthError {
    /// Cannot derive distance.
    CouldNotGetDistance(Rs2Exception, String),
    /// Cannot derive the depth units used.
    CouldNotGetDepthUnits(Rs2Exception, String),
}

/// Occurs when a baseline cannot be derived from a disparity frame.
#[derive(Clone, Debug, PartialEq, Eq)]
pub struct DisparityError(pub Rs2Exception, pub String);

/// Cannot get the frame sensor.
#[derive(Clone, Debug, PartialEq, Eq)]
pub struct CouldNotGetFrameSensorError(pub Rs2Exception, pub String);

/// The categories into which frames are sorted.
#[derive(Clone, Copy, Debug, PartialEq, Eq, Hash, Structural)]
pub enum Category {
    Color,
    Depth,
    Disparity,
    Infrared,
    Fisheye,
    Confidence,
    Accel,
    Gyro,
    Pose,
    Points,
}

/// Whether a frame of stream kind `actual` may be held in a category that
/// declares `declared`: a category that declares `Any` takes every kind.
pub open spec fn kind_matches(declared: Rs2StreamKind, actual: Rs2StreamKind) -> bool {
    declared == Rs2StreamKind::Any || declared == actual
}

/// Why a frame handle was not taken into a category.
#[allow(inconsistent_fields)]
#[derive(Clone, Copy, Debug, PartialEq, Eq, Hash, Structural)]
pub enum CategoryMismatch {
    /// The handle's extension is not the category's.
    Extension { expected: Rs2Extension, actual: Rs2Extension },
    /// The extension matches, the stream kind does not.
    Kind { expected: Rs2StreamKind, actual: Rs2StreamKind },
}

impl Category {
    pub open spec fn spec_extension(self) -> Rs2Extension {
        match self {
            Category::Color | Category::Infrared | Category::Fisheye | Category::Confidence => Rs2Extension::VideoFrame,
            Category::Depth => Rs2Extension::DepthFrame,
            Category::Disparity => Rs2Extension::DisparityFrame,
            Category::Accel | Category::Gyro => Rs2Extension::MotionFrame,
            Category::Pose => Rs2Extension::PoseFrame,
            Category::Points => Rs2Extension::Points,
        }
    }

    pub open spec fn spec_kind(self) -> Rs2StreamKind {
        match self {
            Category::Color => Rs2StreamKind::Color,
            Category::Depth | Category::Disparity => Rs2StreamKind::Depth,
            Category::Infrared => Rs2StreamKind::Infrared,
            Category::Fisheye => Rs2StreamKind::Fisheye,
            Category::Confidence => Rs2StreamKind::Confidence,
            Category::Accel => Rs2StreamKind::Accel,
            Category::Gyro => Rs2StreamKind::Gyro,
            Category::Pose => Rs2StreamKind::Pose,
            Category::Points => Rs2StreamKind::Any,
        }
    }

    /// Whether a handle that reports `extension` and `kind` belongs here.
    pub open spec fn accepts(self, extension: Rs2Extension, kind: Rs2StreamKind) -> bool {
        extension == self.spec_extension() && kind_matches(self.spec_kind(), kind)
    }

    /// What is reported when a handle with these tags is refused.
    pub open spec fn mismatch(self, extension: Rs2Extension, kind: Rs2StreamKind) -> CategoryMismatch {
        if extension != self.spec_extension() {
            CategoryMismatch::Extension { expected: self.spec_extension(), actual: extension }
        } else {
            CategoryMismatch::Kind { expected: self.spec_kind(), actual: kind }
        }
    }

    /// The extension that frames of this category have.
    pub fn extension(&self) -> (r: Rs2Extension)
        ensures
            r == self.spec_extension(),
    {
        match self {
            Category::Color | Category::Infrared | Category::Fisheye | Category::Confidence => Rs2Extension::VideoFrame,
            Category::Depth => Rs2Extension::DepthFrame,
            Category::Disparity => Rs2Extension::DisparityFrame,
            Category::Accel | Category::Gyro => Rs2Extension::MotionFrame,
            Category::Pose => Rs2Extension::PoseFrame,
            Category::Points => Rs2Extension::Points,
        }
    }

    /// The stream kind that frames of this category come from; `Any` where
    /// the kind is not checked.
    pub fn kind(&self) -> (r: Rs2StreamKind)
        ensures
            r == self.spec_kind(),
    {
        match self {
            Category::Color => Rs2StreamKind::Color,
            Category::Depth | Category::Disparity => Rs2StreamKind::Depth,
            Category::Infrared => Rs2StreamKind::Infrared,
            Category::Fisheye => Rs2StreamKind::Fisheye,
            Category::Confidence => Rs2StreamKind::Confidence,
            Category::Accel => Rs2StreamKind::Accel,
            Category::Gyro => Rs2StreamKind::Gyro,
            Category::Pose => Rs2StreamKind::Pose,
            Category::Points => Rs2StreamKind::Any,
        }
    }

    /// Checks the tags that the native layer reported for a handle against
    /// this category: the extension first, then the stream kind.
    pub fn check(&self, extension: Rs2Extension, kind: Rs2StreamKind) -> (r: Result<(), CategoryMismatch>)
        ensures
            r is Ok <==> self.accepts(extension, kind),
            r matches Err(m) ==> m == self.mismatch(extension, kind),
    {
        let expected = self.extension();
        if extension != expected {
            return Err(CategoryMismatch::Extension { expected, actual: extension });
        }
        let declared = self.kind();
        if declared != Rs2StreamKind::Any && declared != kind {
            return Err(CategoryMismatch::Kind { expected: declared, actual: kind });
        }
        Ok(())
    }
}

/// A handle's tags are accepted by one category at most.
pub proof fn lemma_category_exclusive(a: Category, b: Category, extension: Rs2Extension, kind: Rs2StreamKind)
    requires
        a.accepts(extension, kind),
        b.accepts(extension, kind),
    ensures
        a == b,
{
}

/// Each category accepts a handle that reports exactly its own tags.
pub proof fn lemma_category_accepts_own_tags(c: Category)
    ensures
        c.accepts(c.spec_extension(), c.spec_kind()),
{
}

/// Ties a marker type to the category whose frames it stands for.
pub trait CategoryMarker {
    spec fn spec_category() -> Category;

    fn category() -> (r: Category)
        ensures
            r == Self::spec_category(),
    ;
}

/// Marks frames of color streams.
pub struct Color;

/// Marks frames of depth streams.
pub struct Depth;

/// Marks disparity frames of depth streams.
pub struct Disparity;

/// Marks frames of infrared streams.
pub struct Infrared;

/// Marks frames of fisheye streams.
pub struct Fisheye;

/// Marks frames of confidence streams.
pub struct Confidence;

/// Marks frames of accelerometer streams.
pub struct Accel;

/// Marks frames of gyroscope streams.
pub struct Gyro;

/// Marks frames of pose streams.
pub struct Pose;

/// Marks point cloud frames, whatever stream they come from.
pub struct Points;

impl CategoryMarker for Color {
    open spec fn spec_category() -> Category {
        Category::Color
    }

    fn category() -> (r: Category) {
        Category::Color
    }
}

impl CategoryMarker for Depth {
    open spec fn spec_category() -> Category {
        Category::Depth
    }

    fn category() -> (r: Category) {
        Category::Depth
    }
}

impl CategoryMarker for Disparity {
    open spec fn spec_category() -> Category {
        Category::Disparity
    }

    fn category() -> (r: Category) {
        Category::Disparity
    }
}

impl CategoryMarker for Infrared {
    open spec fn spec_category() -> Category {
        Category::Infrared
    }

    fn category() -> (r: Category) {
        Category::Infrared
    }
}

impl CategoryMarker for Fisheye {
    open spec fn spec_category() -> Category {
        Category::Fisheye
    }

    fn category() -> (r: Category) {
        Category::Fisheye
    }
}

impl CategoryMarker for Confidence {
    open spec fn spec_category() -> Category {
        Category::Confidence
    }

    fn category() -> (r: Category) {
        Category::Confidence
    }
}

impl CategoryMarker for Accel {
    open spec fn spec_category() -> Category {
        Category::Accel
    }

    fn category() -> (r: Category) {
        Category::Accel
    }
}

impl CategoryMarker for Gyro {
    open spec fn spec_category() -> Category {
        Category::Gyro
    }

    fn category() -> (r: Category) {
        Category::Gyro
    }
}

impl CategoryMarker for Pose {
    open spec fn spec_category() -> Category {
        Category::Pose
    }

    fn category() -> (r: Category) {
        Category::Pose
    }
}

impl CategoryMarker for Points {
    open spec fn spec_category() -> Category {
        Category::Points
    }

    fn category() -> (r: Category) {
        Category::Points
    }
}

/// Metadata that a frame reported, one entry for each metadata kind: the
/// value where the kind is supported, nothing where it is not.
pub struct MetadataTable {
    values: Vec<Option<i64>>,
}

impl View for MetadataTable {
    type V = Seq<Option<i64>>;

    closed spec fn view(&self) -> Seq<Option<i64>> {
        self.values@
    }
}

impl MetadataTable {
    #[verifier::type_invariant]
    spec fn inv(self) -> bool {
        self.values@.len() == METADATA_KIND_COUNT
    }

    /// The entry for `kind`.
    pub open spec fn lookup(self, kind: Rs2FrameMetadata) -> Option<i64> {
        self@[metadata_index(kind) as int]
    }

    /// A table in which no kind is supported.
    pub fn empty() -> (r: MetadataTable)
        ensures
            forall|k: Rs2FrameMetadata| #[trigger] r.lookup(k) is None,
    {
        let mut values: Vec<Option<i64>> = Vec::new();
        while values.len() < METADATA_KIND_COUNT
            invariant
                values@.len() <= METADATA_KIND_COUNT,
                forall|i: int| 0 <= i < values@.len() ==> #[trigger] values@[i] is None,
            decreases METADATA_KIND_COUNT - values@.len(),
        {
            values.push(None);
        }
        MetadataTable { values }
    }

    /// A table with `values[i]` as the entry of the kind at position `i`;
    /// nothing unless there is exactly one value for each kind.
    pub fn from_values(values: Vec<Option<i64>>) -> (r: Option<MetadataTable>)
        ensures
            r is Some <==> values@.len() == METADATA_KIND_COUNT,
            r matches Some(t) ==> t@ == values@,
    {
        if values.len() == METADATA_KIND_COUNT {
            Some(MetadataTable { values })
        } else {
            None
        }
    }

    /// The entry for `kind`: its value, or nothing where it is not supported.
    pub fn get(&self, kind: Rs2FrameMetadata) -> (r: Option<i64>)
        ensures
            r == self.lookup(kind),
    {
        proof {
            use_type_invariant(self);
        }
        self.values[kind.index()]
    }

    /// Whether `kind` is supported.
    pub fn contains(&self, kind: Rs2FrameMetadata) -> (r: bool)
        ensures
            r == self.lookup(kind) is Some,
    {
        self.get(kind).is_some()
    }
}

/// A frame's pixel buffer, with a geometry that fits its format.
pub struct PixelBuffer<'a> {
    format: Rs2Format,
    geometry: Geometry,
    data: &'a [u8],
}

impl<'a> PixelBuffer<'a> {
    #[verifier::type_invariant]
    spec fn inv(self) -> bool {
        &&& self.geometry.fits(self.format)
        &&& self.data@.len() == self.geometry.data_size_bytes
    }

    pub closed spec fn spec_format(self) -> Rs2Format {
        self.format
    }

    pub closed spec fn spec_geometry(self) -> Geometry {
        self.geometry
    }

    pub closed spec fn spec_data(self) -> Seq<u8> {
        self.data@
    }

    /// Takes `data` as a buffer of `format` laid out by `geometry`; nothing
    /// when the geometry does not fit the format or the data's length.
    pub fn new(format: Rs2Format, geometry: Geometry, data: &'a [u8]) -> (r: Option<PixelBuffer<'a>>)
        ensures
            r is Some <==> geometry.fits(format) && data@.len() == geometry.data_size_bytes,
            r matches Some(b) ==> b.spec_format() == format && b.spec_geometry() == geometry
                && b.spec_data() == data@,
    {
        if geometry.fits_format(format) && data.len() == geometry.data_size_bytes {
            Some(PixelBuffer { format, geometry, data })
        } else {
            None
        }
    }

    pub fn format(&self) -> (r: Rs2Format)
        ensures
            r == self.spec_format(),
    {
        self.format
    }

    pub fn geometry(&self) -> (r: Geometry)
        ensures
            r == self.spec_geometry(),
    {
        self.geometry
    }

    pub fn data<'b>(&'b self) -> (r: &'b [u8])
        ensures
            r@ == self.spec_data(),
    {
        self.data
    }

    /// The pixel at column `col` and row `row`; nothing outside the frame.
    pub fn pixel_at<'b>(&'b self, col: usize, row: usize) -> (r: Option<PixelKind<'b>>)
        ensures
            r is Some <==> col < self.spec_geometry().width && row < self.spec_geometry().height,
            r matches Some(p) ==> p@ == pixel_value(
                self.spec_format(),
                self.spec_data(),
                self.spec_geometry().stride_bytes as nat,
                col as nat,
                row as nat,
            ),
    {
        proof {
            use_type_invariant(self);
        }
        if col < self.geometry.width && row < self.geometry.height {
            proof {
                lemma_pixel_inside_buffer(self.format, self.geometry, col as nat, row as nat);
            }
            Some(get_pixel(self.format, self.data, self.geometry.stride_bytes, col, row))
        } else {
            None
        }
    }
}

/// Whether a native size query succeeded with a value that is no negative.
pub open spec fn dimension_ok(q: Result<i32, (Rs2Exception, String)>) -> bool {
    q matches Ok(v) && v >= 0
}

/// Whether `(kind, message)` reports the failure of query `q`: the native
/// error where the query failed, an invalid value where it gave a negative one.
pub open spec fn reports_failure(q: Result<i32, (Rs2Exception, String)>, kind: Rs2Exception, message: String) -> bool {
    match q {
        Err((k, m)) => kind == k && message == m,
        Ok(_) => kind == Rs2Exception::InvalidValue,
    }
}

fn dimension(q: Result<i32, (Rs2Exception, String)>) -> (r: Result<usize, (Rs2Exception, String)>)
    ensures
        r is Ok <==> dimension_ok(q),
        r matches Ok(n) ==> (q matches Ok(v) && n == v),
        r matches Err((k, m)) ==> reports_failure(q, k, m),
{
    match q {
        Ok(v) => if v >= 0 {
            Ok(v as usize)
        } else {
            Err((Rs2Exception::InvalidValue, "negative value".to_owned()))
        },
        Err(e) => Err(e),
    }
}

/// The geometry of a frame from the results of its native width, height,
/// stride and data size queries. The first query that failed or gave a
/// negative value, in that order, is reported.
pub fn geometry_from_queries(
    width: Result<i32, (Rs2Exception, String)>,
    height: Result<i32, (Rs2Exception, String)>,
    stride: Result<i32, (Rs2Exception, String)>,
    size: Result<i32, (Rs2Exception, String)>,
) -> (r: Result<Geometry, FrameConstructionError>)
    ensures
        r is Ok <==> dimension_ok(width) && dimension_ok(height) && dimension_ok(stride)
            && dimension_ok(size),
        r matches Ok(g) ==> {
            &&& (width matches Ok(w) && g.width == w)
            &&& (height matches Ok(h) && g.height == h)
            &&& (stride matches Ok(s) && g.stride_bytes == s)
            &&& (size matches Ok(n) && g.data_size_bytes == n)
        },
        r matches Err(e) ==> if !dimension_ok(width) {
            (e matches FrameConstructionError::CouldNotGetWidth(k, m) && reports_failure(width, k, m))
        } else if !dimension_ok(height) {
            (e matches FrameConstructionError::CouldNotGetHeight(k, m) && reports_failure(height, k, m))
        } else if !dimension_ok(stride) {
            (e matches FrameConstructionError::CouldNotGetStride(k, m) && reports_failure(stride, k, m))
        } else {
            (e matches FrameConstructionError::CouldNotGetDataSize(k, m) && reports_failure(size, k, m))
        },
{
    let width = match dimension(width) {
        Ok(n) => n,
        Err((k, m)) => return Err(FrameConstructionError::CouldNotGetWidth(k, m)),
    };
    let height = match dimension(height) {
        Ok(n) => n,
        Err((k, m)) => return Err(FrameConstructionError::CouldNotGetHeight(k, m)),
    };
    let stride_bytes = match dimension(stride) {
        Ok(n) => n,
        Err((k, m)) => return Err(FrameConstructionError::CouldNotGetStride(k, m)),
    };
    let data_size_bytes = match dimension(size) {
        Ok(n) => n,
        Err((k, m)) => return Err(FrameConstructionError::CouldNotGetDataSize(k, m)),
    };
    Ok(Geometry { width, height, stride_bytes, data_size_bytes })
}

/// Which extensions the native layer says a frame handle extends to: the one
/// that a caller asks for, and each frame extension.
#[derive(Clone, Copy, Debug, PartialEq, Eq, Hash, Structural)]
pub struct ExtensionSupport {
    pub wanted: bool,
    pub disparity_frame: bool,
    pub depth_frame: bool,
    pub pose_frame: bool,
    pub motion_frame: bool,
    pub points: bool,
    pub video_frame: bool,
    pub composite_frame: bool,
}

/// The extension reported for a handle: `wanted` where the handle extends to
/// it, else the most specific frame extension that it extends to (a disparity
/// frame is also a depth frame, and a depth frame also a video frame), else
/// `Unknown`.
pub open spec fn extension_reported(wanted: Rs2Extension, s: ExtensionSupport) -> Rs2Extension {
    if s.wanted {
        wanted
    } else if s.disparity_frame {
        Rs2Extension::DisparityFrame
    } else if s.depth_frame {
        Rs2Extension::DepthFrame
    } else if s.pose_frame {
        Rs2Extension::PoseFrame
    } else if s.motion_frame {
        Rs2Extension::MotionFrame
    } else if s.points {
        Rs2Extension::Points
    } else if s.video_frame {
        Rs2Extension::VideoFrame
    } else if s.composite_frame {
        Rs2Extension::CompositeFrame
    } else {
        Rs2Extension::Unknown
    }
}

/// The extension to classify a handle by, from what it extends to (see
/// `extension_reported`).
pub fn reported_extension(wanted: Rs2Extension, s: &ExtensionSupport) -> (r: Rs2Extension)
    ensures
        r == extension_reported(wanted, *s),
{
    if s.wanted {
        wanted
    } else if s.disparity_frame {
        Rs2Extension::DisparityFrame
    } else if s.depth_frame {
        Rs2Extension::DepthFrame
    } else if s.pose_frame {
        Rs2Extension::PoseFrame
    } else if s.motion_frame {
        Rs2Extension::MotionFrame
    } else if s.points {
        Rs2Extension::Points
    } else if s.video_frame {
        Rs2Extension::VideoFrame
    } else if s.composite_frame {
        Rs2Extension::CompositeFrame
    } else {
        Rs2Extension::Unknown
    }
}

/// The description of a frame's stream from the values that the native
/// profile query gave: `stream` and `format` are nothing where the native
/// value is not one this library knows. Unknown values and a negative index
/// are refused as invalid.
pub fn profile_from_queries(
    stream: Option<Rs2StreamKind>,
    format: Option<Rs2Format>,
    index: i32,
    unique_id: i32,
    framerate: i32,
) -> (r: Result<StreamProfileData, FrameConstructionError>)
    ensures
        r is Ok <==> stream is Some && format is Some && index >= 0,
        r matches Ok(p) ==> {
            &&& (stream matches Some(k) && p.stream == k)
            &&& (format matches Some(f) && p.format == f)
            &&& p.index == index
            &&& p.unique_id == unique_id
            &&& p.framerate == framerate
        },
        r matches Err(e) ==> (e matches FrameConstructionError::CouldNotGetFrameStreamProfile(k, _)
            && k == Rs2Exception::InvalidValue),
{
    let stream = match stream {
        Some(k) => k,
        None => return Err(FrameConstructionError::CouldNotGetFrameStreamProfile(
            Rs2Exception::InvalidValue,
            "unknown stream kind".to_owned(),
        )),
    };
    let format = match format {
        Some(f) => f,
        None => return Err(FrameConstructionError::CouldNotGetFrameStreamProfile(
            Rs2Exception::InvalidValue,
            "unknown format".to_owned(),
        )),
    };
    if index < 0 {
        return Err(FrameConstructionError::CouldNotGetFrameStreamProfile(
            Rs2Exception::InvalidValue,
            "negative stream index".to_owned(),
        ));
    }
    Ok(StreamProfileData { stream, format, index: index as usize, unique_id, framerate })
}

/// The pixel buffer of an image frame: nothing for a format whose pixels
/// cannot be addressed, and an invalid-data error where the geometry does not
/// fit an addressable format or the data's length.
pub fn pixel_buffer_for<'a>(format: Rs2Format, geometry: Geometry, data: &'a [u8]) -> (r: Result<Option<PixelBuffer<'a>>, FrameConstructionError>)
    ensures
        !is_pixel_format(format) ==> r matches Ok(None),
        is_pixel_format(format) ==> (r is Ok <==> geometry.fits(format) && data@.len()
            == geometry.data_size_bytes),
        is_pixel_format(format) ==> !(r matches Ok(None)),
        r matches Ok(Some(b)) ==> b.spec_format() == format && b.spec_geometry() == geometry
            && b.spec_data() == data@,
        r matches Err(e) ==> (e matches FrameConstructionError::CouldNotGetData(k, _) && k
            == Rs2Exception::InvalidValue),
{
    if !is_addressable(format) {
        return Ok(None);
    }
    match PixelBuffer::new(format, geometry, data) {
        Some(b) => Ok(Some(b)),
        None => Err(FrameConstructionError::CouldNotGetData(
            Rs2Exception::InvalidValue,
            "frame geometry does not fit its format".to_owned(),
        )),
    }
}

/// What the native layer reported about a frame handle.
pub struct FrameInfo<'a> {
    /// The handle's extension.
    pub extension: Rs2Extension,
    /// The stream the frame belongs to; its `stream` is the frame's stream kind.
    pub profile: StreamProfileData,
    /// The clock to which the frame's timestamp is relative.
    pub domain: Rs2TimestampDomain,
    /// The frame's metadata.
    pub metadata: MetadataTable,
    /// The frame's pixels, where it is an image.
    pub pixels: Option<PixelBuffer<'a>>,
}

/// A frame handle that was not taken into a category, handed back with what
/// was reported about it and the reason.
pub struct Rejected<'a, H> {
    pub handle: H,
    pub info: FrameInfo<'a>,
    pub mismatch: CategoryMismatch,
}

/// A frame of category `K` that owns the native handle `H`.
pub struct Frame<'a, K, H> {
    handle: H,
    info: FrameInfo<'a>,
    category: PhantomData<K>,
}

impl<'a, K: CategoryMarker, H> Frame<'a, K, H> {
    pub closed spec fn handle_spec(&self) -> H {
        self.handle
    }

    pub closed spec fn info_spec(&self) -> FrameInfo<'a> {
        self.info
    }

    /// Wraps `handle` as a frame of category `K`, where the extension and
    /// stream kind reported in `info` are the category's. Otherwise the
    /// handle comes back untouched, with the mismatch.
    pub fn try_from_handle(handle: H, info: FrameInfo<'a>) -> (r: Result<Frame<'a, K, H>, Rejected<'a, H>>)
        ensures
            r is Ok <==> K::spec_category().accepts(info.extension, info.profile.stream),
            r matches Ok(f) ==> f.handle_spec() == handle && f.info_spec() == info,
            r matches Err(e) ==> e.handle == handle && e.info == info && e.mismatch
                == K::spec_category().mismatch(info.extension, info.profile.stream),
    {
        let category = K::category();
        match category.check(info.extension, info.profile.stream) {
            Ok(()) => Ok(Frame { handle, info, category: PhantomData }),
            Err(mismatch) => Err(Rejected { handle, info, mismatch }),
        }
    }

    /// The native handle, still owned by the frame.
    pub fn handle(&self) -> (r: &H)
        ensures
            *r == self.handle_spec(),
    {
        &self.handle
    }

    /// What the native layer reported about the frame.
    pub fn info(&self) -> (r: &FrameInfo<'a>)
        ensures
            *r == self.info_spec(),
    {
        &self.info
    }

    /// The pixel at column `col` and row `row`; nothing where the frame holds
    /// no pixels or the position lies outside it.
    pub fn pixel_at<'b>(&'b self, col: usize, row: usize) -> (r: Option<PixelKind<'b>>)
        ensures
            r is Some <==> match self.info_spec().pixels {
                Some(b) => col < b.spec_geometry().width && row < b.spec_geometry().height,
                None => false,
            },
            r matches Some(p) ==> self.info_spec().pixels matches Some(b) && p@ == pixel_value(
                b.spec_format(),
                b.spec_data(),
                b.spec_geometry().stride_bytes as nat,
                col as nat,
                row as nat,
            ),
    {
        match &self.info.pixels {
            Some(b) => b.pixel_at(col, row),
            None => None,
        }
    }
}

/// Associates a typed frame with the extension and stream kind that its
/// category requires, and checks a frame's own stream kind against them.
pub trait FrameCategory {
    spec fn spec_extension() -> Rs2Extension;

    spec fn spec_kind() -> Rs2StreamKind;

    /// The stream kind that the frame itself reported.
    spec fn stream_kind_of(&self) -> Rs2StreamKind;

    /// The extension of the frames of this type.
    fn extension() -> (r: Rs2Extension)
        ensures
            r == Self::spec_extension(),
    ;

    /// The stream kind of the frames of this type.
    fn kind() -> (r: Rs2StreamKind)
        ensures
            r == Self::spec_kind(),
    ;

    /// Whether the frame's stream has the kind of this type.
    fn has_correct_kind(&self) -> (r: bool)
        ensures
            r == kind_matches(Self::spec_kind(), self.stream_kind_of()),
    ;
}

impl<'a, K: CategoryMarker, H> FrameCategory for Frame<'a, K, H> {
    open spec fn spec_extension() -> Rs2Extension {
        K::spec_category().spec_extension()
    }

    open spec fn spec_kind() -> Rs2StreamKind {
        K::spec_category().spec_kind()
    }

    open spec fn stream_kind_of(&self) -> Rs2StreamKind {
        self.info_spec().profile.stream
    }

    fn extension() -> (r: Rs2Extension) {
        K::category().extension()
    }

    fn kind() -> (r: Rs2StreamKind) {
        K::category().kind()
    }

    fn has_correct_kind(&self) -> (r: bool) {
        let declared = K::category().kind();
        declared == Rs2StreamKind::Any || declared == self.info.profile.stream
    }
}

/// Accessors that every categorized frame offers.
pub trait FrameEx: Sized {
    /// The native handle type that the frame owns.
    type Handle;

    spec fn profile_of(&self) -> StreamProfileData;

    spec fn domain_of(&self) -> Rs2TimestampDomain;

    spec fn metadata_of(&self, kind: Rs2FrameMetadata) -> Option<i64>;

    spec fn supported_of(&self, kind: Rs2FrameMetadata) -> bool;

    spec fn raw_of(&self) -> Self::Handle;

    /// The stream profile that describes the frame.
    fn stream_profile(&self) -> (r: &StreamProfileData)
        ensures
            *r == self.profile_of(),
    ;

    /// The clock to which the frame's timestamp is relative.
    fn timestamp_domain(&self) -> (r: Rs2TimestampDomain)
        ensures
            r == self.domain_of(),
    ;

    /// The frame's metadata of kind `kind`; nothing where the frame does not
    /// support that kind.
    fn metadata(&self, kind: Rs2FrameMetadata) -> (r: Option<i64>)
        ensures
            r == self.metadata_of(kind),
    ;

    /// Whether the frame supports metadata of kind `kind`.
    fn supports_metadata(&self, kind: Rs2FrameMetadata) -> (r: bool)
        ensures
            r == self.supported_of(kind),
    ;

    /// Hands the native handle to the caller, who is responsible for
    /// releasing it from then on. The frame is consumed.
    fn get_owned_raw(self) -> (r: Self::Handle)
        ensures
            r == self.raw_of(),
    ;
}

impl<'a, K: CategoryMarker, H> FrameEx for Frame<'a, K, H> {
    type Handle = H;

    open spec fn profile_of(&self) -> StreamProfileData {
        self.info_spec().profile
    }

    open spec fn domain_of(&self) -> Rs2TimestampDomain {
        self.info_spec().domain
    }

    open spec fn metadata_of(&self, kind: Rs2FrameMetadata) -> Option<i64> {
        self.info_spec().metadata.lookup(kind)
    }

    open spec fn supported_of(&self, kind: Rs2FrameMetadata) -> bool {
        self.info_spec().metadata.lookup(kind) is Some
    }

    open spec fn raw_of(&self) -> H {
        self.handle_spec()
    }

    fn stream_profile(&self) -> (r: &StreamProfileData) {
        &self.info.profile
    }

    fn timestamp_domain(&self) -> (r: Rs2TimestampDomain) {
        self.info.domain
    }

    fn metadata(&self, kind: Rs2FrameMetadata) -> (r: Option<i64>) {
        self.info.metadata.get(kind)
    }

    fn supports_metadata(&self, kind: Rs2FrameMetadata) -> (r: bool) {
        self.info.metadata.contains(kind)
    }

    fn get_owned_raw(self) -> (r: H) {
        self.handle
    }
}

/// A frame supports a metadata kind exactly when it reports a value for it.
pub proof fn lemma_supports_metadata_iff_present<'a, K: CategoryMarker, H>(frame: Frame<'a, K, H>, kind: Rs2FrameMetadata)
    ensures
        frame.supported_of(kind) <==> frame.metadata_of(kind) is Some,
{
}

} // verus!
