use realsense_rust::base::StreamProfileData;
use realsense_rust::frame::{
    Accel, Category, CategoryMismatch, Color, Confidence, Depth, Disparity, Fisheye, Frame,
    FrameCategory, FrameEx, FrameInfo, Gyro, Infrared, MetadataTable, PixelBuffer, Points, Pose,
};
use realsense_rust::kind::{
    Rs2Extension, Rs2Format, Rs2FrameMetadata, Rs2StreamKind, Rs2TimestampDomain,
    METADATA_KIND_COUNT,
};
use realsense_rust::pixel::{Geometry, PixelKind};

/// A stand-in for a native frame handle.
#[derive(Debug, PartialEq)]
struct FakeHandle(u32);

fn profile(stream: Rs2StreamKind, format: Rs2Format) -> StreamProfileData {
    StreamProfileData { stream, format, index: 0, unique_id: 7, framerate: 30 }
}

fn info(extension: Rs2Extension, stream: Rs2StreamKind) -> FrameInfo<'static> {
    FrameInfo {
        extension,
        profile: profile(stream, Rs2Format::Any),
        domain: Rs2TimestampDomain::SystemTime,
        metadata: MetadataTable::empty(),
        pixels: None,
    }
}

const CATEGORIES: [Category; 10] = [
    Category::Color,
    Category::Depth,
    Category::Disparity,
    Category::Infrared,
    Category::Fisheye,
    Category::Confidence,
    Category::Accel,
    Category::Gyro,
    Category::Pose,
    Category::Points,
];

const KINDS: [Rs2StreamKind; 10] = [
    Rs2StreamKind::Any,
    Rs2StreamKind::Depth,
    Rs2StreamKind::Color,
    Rs2StreamKind::Infrared,
    Rs2StreamKind::Fisheye,
    Rs2StreamKind::Gyro,
    Rs2StreamKind::Accel,
    Rs2StreamKind::Gpio,
    Rs2StreamKind::Pose,
    Rs2StreamKind::Confidence,
];

#[test]
fn category_tags_are_exact() {
    assert_eq!(Category::Color.extension(), Rs2Extension::VideoFrame);
    assert_eq!(Category::Color.kind(), Rs2StreamKind::Color);
    assert_eq!(Category::Depth.extension(), Rs2Extension::DepthFrame);
    assert_eq!(Category::Disparity.extension(), Rs2Extension::DisparityFrame);
    assert_eq!(Category::Disparity.kind(), Rs2StreamKind::Depth);
    assert_eq!(Category::Gyro.extension(), Rs2Extension::MotionFrame);
    assert_eq!(Category::Pose.extension(), Rs2Extension::PoseFrame);
    assert_eq!(Category::Points.extension(), Rs2Extension::Points);
    assert_eq!(Category::Points.kind(), Rs2StreamKind::Any);
}

#[test]
fn each_category_accepts_exactly_its_own_tags() {
    for c in CATEGORIES {
        assert_eq!(c.check(c.extension(), c.kind()), Ok(()));
        let mut accepting = 0;
        for other in CATEGORIES {
            if other.check(c.extension(), c.kind()).is_ok() {
                accepting += 1;
                assert_eq!(other, c);
            }
        }
        assert_eq!(accepting, 1);
    }
}

#[test]
fn points_category_takes_any_stream_kind() {
    for k in KINDS {
        assert_eq!(Category::Points.check(Rs2Extension::Points, k), Ok(()));
    }
}

#[test]
fn wrong_extension_is_reported_first() {
    assert_eq!(
        Category::Depth.check(Rs2Extension::VideoFrame, Rs2StreamKind::Color),
        Err(CategoryMismatch::Extension {
            expected: Rs2Extension::DepthFrame,
            actual: Rs2Extension::VideoFrame
        })
    );
}

#[test]
fn wrong_kind_is_reported_with_both_kinds() {
    assert_eq!(
        Category::Color.check(Rs2Extension::VideoFrame, Rs2StreamKind::Infrared),
        Err(CategoryMismatch::Kind { expected: Rs2StreamKind::Color, actual: Rs2StreamKind::Infrared })
    );
}

#[test]
fn handle_with_matching_tags_becomes_a_typed_frame() {
    let f = Frame::<Depth, FakeHandle>::try_from_handle(
        FakeHandle(3),
        info(Rs2Extension::DepthFrame, Rs2StreamKind::Depth),
    )
    .ok()
    .expect("depth frame");
    assert_eq!(f.handle(), &FakeHandle(3));
    assert!(f.has_correct_kind());
    assert_eq!(<Frame<Depth, FakeHandle> as FrameCategory>::extension(), Rs2Extension::DepthFrame);
    assert_eq!(<Frame<Depth, FakeHandle> as FrameCategory>::kind(), Rs2StreamKind::Depth);
    assert_eq!(f.stream_profile().unique_id, 7);
    assert_eq!(f.timestamp_domain(), Rs2TimestampDomain::SystemTime);
}

#[test]
fn rejected_handle_comes_back_usable() {
    let rejected = match Frame::<Color, FakeHandle>::try_from_handle(
        FakeHandle(9),
        info(Rs2Extension::VideoFrame, Rs2StreamKind::Infrared),
    ) {
        Ok(_) => panic!("an infrared frame is no color frame"),
        Err(e) => e,
    };
    assert_eq!(rejected.handle, FakeHandle(9));
    assert_eq!(
        rejected.mismatch,
        CategoryMismatch::Kind { expected: Rs2StreamKind::Color, actual: Rs2StreamKind::Infrared }
    );
    // The same handle, with what was reported, goes into the right category.
    let f = Frame::<Infrared, FakeHandle>::try_from_handle(rejected.handle, rejected.info)
        .ok()
        .expect("infrared frame");
    assert_eq!(f.get_owned_raw(), FakeHandle(9));
}

#[test]
fn every_marker_type_classifies_its_tags() {
    fn ok<K: realsense_rust::frame::CategoryMarker>(c: Category) -> bool {
        Frame::<K, FakeHandle>::try_from_handle(FakeHandle(1), info(c.extension(), c.kind())).is_ok()
    }
    assert!(ok::<Color>(Category::Color));
    assert!(ok::<Depth>(Category::Depth));
    assert!(ok::<Disparity>(Category::Disparity));
    assert!(ok::<Infrared>(Category::Infrared));
    assert!(ok::<Fisheye>(Category::Fisheye));
    assert!(ok::<Confidence>(Category::Confidence));
    assert!(ok::<Accel>(Category::Accel));
    assert!(ok::<Gyro>(Category::Gyro));
    assert!(ok::<Pose>(Category::Pose));
    assert!(ok::<Points>(Category::Points));
    assert!(!ok::<Gyro>(Category::Accel));
    assert!(!ok::<Depth>(Category::Disparity));
    assert!(!ok::<Pose>(Category::Points));
}

#[test]
fn ownership_transfer_returns_the_wrapped_handle() {
    let f = Frame::<Pose, FakeHandle>::try_from_handle(
        FakeHandle(42),
        info(Rs2Extension::PoseFrame, Rs2StreamKind::Pose),
    )
    .ok()
    .expect("pose frame");
    let raw = f.get_owned_raw();
    assert_eq!(raw, FakeHandle(42));
}

fn table_with(pairs: &[(Rs2FrameMetadata, i64)]) -> MetadataTable {
    let mut values: Vec<Option<i64>> = vec![None; METADATA_KIND_COUNT];
    for (k, v) in pairs {
        values[k.index()] = Some(*v);
    }
    MetadataTable::from_values(values).expect("one value per kind")
}

#[test]
fn supports_metadata_agrees_with_metadata() {
    let tables = [
        MetadataTable::empty(),
        table_with(&[(Rs2FrameMetadata::FrameCounter, 5)]),
        table_with(&[(Rs2FrameMetadata::ActualFps, 30), (Rs2FrameMetadata::SequenceSize, -1)]),
    ];
    for table in tables {
        let mut i = METADATA_KIND_COUNT;
        let mut frame_info = info(Rs2Extension::VideoFrame, Rs2StreamKind::Color);
        frame_info.metadata = table;
        let f = Frame::<Color, FakeHandle>::try_from_handle(FakeHandle(0), frame_info)
            .ok()
            .expect("color frame");
        while i > 0 {
            i -= 1;
            let k = Rs2FrameMetadata::from_index(i).expect("kind");
            assert_eq!(f.supports_metadata(k), f.metadata(k).is_some());
        }
    }
}

#[test]
fn metadata_values_are_reported_per_kind() {
    let t = table_with(&[(Rs2FrameMetadata::FrameCounter, 5), (Rs2FrameMetadata::Gamma, -3)]);
    assert_eq!(t.get(Rs2FrameMetadata::FrameCounter), Some(5));
    assert_eq!(t.get(Rs2FrameMetadata::Gamma), Some(-3));
    assert_eq!(t.get(Rs2FrameMetadata::Hue), None);
    assert!(t.contains(Rs2FrameMetadata::Gamma));
    assert!(!t.contains(Rs2FrameMetadata::Hue));
}

#[test]
fn metadata_table_needs_one_value_per_kind() {
    assert!(MetadataTable::from_values(vec![None; METADATA_KIND_COUNT - 1]).is_none());
    assert!(MetadataTable::from_values(vec![None; METADATA_KIND_COUNT + 1]).is_none());
    assert!(MetadataTable::from_values(Vec::new()).is_none());
}

#[test]
fn metadata_kinds_round_trip_through_their_index() {
    assert_eq!(METADATA_KIND_COUNT, 36);
    assert_eq!(Rs2FrameMetadata::FrameCounter.index(), 0);
    assert_eq!(Rs2FrameMetadata::SequenceSize.index(), 35);
    for i in 0..METADATA_KIND_COUNT {
        assert_eq!(Rs2FrameMetadata::from_index(i).expect("kind").index(), i);
    }
    assert_eq!(Rs2FrameMetadata::from_index(METADATA_KIND_COUNT), None);
}

#[test]
fn frame_pixels_are_read_inside_the_geometry_only() {
    let data: Vec<u8> = (0..24u8).collect();
    let g = Geometry { width: 2, height: 2, stride_bytes: 12, data_size_bytes: 24 };
    let pixels = PixelBuffer::new(Rs2Format::Bgr8, g, &data).expect("fits");
    let mut frame_info = info(Rs2Extension::VideoFrame, Rs2StreamKind::Color);
    frame_info.pixels = Some(pixels);
    let f = Frame::<Color, FakeHandle>::try_from_handle(FakeHandle(1), frame_info)
        .ok()
        .expect("color frame");
    match f.pixel_at(1, 1) {
        Some(PixelKind::Bgr8 { b, g, r }) => assert_eq!((*b, *g, *r), (15, 16, 17)),
        p => panic!("{:?}", p),
    }
    assert!(f.pixel_at(2, 0).is_none());
    assert!(f.pixel_at(0, 2).is_none());
}

#[test]
fn frame_without_pixels_reads_none() {
    let f = Frame::<Gyro, FakeHandle>::try_from_handle(
        FakeHandle(1),
        info(Rs2Extension::MotionFrame, Rs2StreamKind::Gyro),
    )
    .ok()
    .expect("gyro frame");
    assert!(f.pixel_at(0, 0).is_none());
}

#[test]
fn pixel_buffer_refuses_mismatched_data() {
    let data: Vec<u8> = vec![0; 10];
    let g = Geometry { width: 2, height: 2, stride_bytes: 4, data_size_bytes: 8 };
    assert!(PixelBuffer::new(Rs2Format::Z16, g, &data).is_none());
    assert!(PixelBuffer::new(Rs2Format::Z16, g, &data[..8]).is_some());
    assert!(PixelBuffer::new(Rs2Format::Mjpeg, g, &data[..8]).is_none());
    let b = PixelBuffer::new(Rs2Format::Z16, g, &data[..8]).expect("fits");
    assert_eq!(b.format(), Rs2Format::Z16);
    assert_eq!(b.geometry(), g);
    assert_eq!(b.data().len(), 8);
}

use realsense_rust::frame::{geometry_from_queries, FrameConstructionError};
use realsense_rust::kind::Rs2Exception;

fn failed(message: &str) -> Result<i32, (Rs2Exception, String)> {
    Err((Rs2Exception::Backend, message.to_string()))
}

#[test]
fn geometry_from_successful_queries() {
    let g = geometry_from_queries(Ok(640), Ok(480), Ok(1280), Ok(614400)).expect("geometry");
    assert_eq!(g, Geometry { width: 640, height: 480, stride_bytes: 1280, data_size_bytes: 614400 });
}

#[test]
fn geometry_reports_the_first_failed_query() {
    assert_eq!(
        geometry_from_queries(failed("w"), failed("h"), Ok(1), Ok(1)),
        Err(FrameConstructionError::CouldNotGetWidth(Rs2Exception::Backend, "w".to_string()))
    );
    assert_eq!(
        geometry_from_queries(Ok(1), failed("h"), failed("s"), Ok(1)),
        Err(FrameConstructionError::CouldNotGetHeight(Rs2Exception::Backend, "h".to_string()))
    );
    assert_eq!(
        geometry_from_queries(Ok(1), Ok(1), failed("s"), failed("n")),
        Err(FrameConstructionError::CouldNotGetStride(Rs2Exception::Backend, "s".to_string()))
    );
    assert_eq!(
        geometry_from_queries(Ok(1), Ok(1), Ok(1), failed("n")),
        Err(FrameConstructionError::CouldNotGetDataSize(Rs2Exception::Backend, "n".to_string()))
    );
}

#[test]
fn geometry_refuses_negative_values() {
    match geometry_from_queries(Ok(1), Ok(-2), Ok(1), Ok(1)) {
        Err(FrameConstructionError::CouldNotGetHeight(Rs2Exception::InvalidValue, _)) => {}
        other => panic!("{:?}", other),
    }
    match geometry_from_queries(Ok(0), Ok(0), Ok(0), Ok(-1)) {
        Err(FrameConstructionError::CouldNotGetDataSize(Rs2Exception::InvalidValue, _)) => {}
        other => panic!("{:?}", other),
    }
    assert!(geometry_from_queries(Ok(0), Ok(0), Ok(0), Ok(0)).is_ok());
}

use realsense_rust::frame::{
    pixel_buffer_for, profile_from_queries, reported_extension, ExtensionSupport, BITS_PER_BYTE,
};

fn support() -> ExtensionSupport {
    ExtensionSupport {
        wanted: false,
        disparity_frame: false,
        depth_frame: false,
        pose_frame: false,
        motion_frame: false,
        points: false,
        video_frame: false,
        composite_frame: false,
    }
}

#[test]
fn bits_per_byte_is_eight() {
    assert_eq!(BITS_PER_BYTE, 8);
}

#[test]
fn wanted_extension_is_reported_when_the_handle_extends_to_it() {
    let s = ExtensionSupport { wanted: true, video_frame: true, depth_frame: true, ..support() };
    assert_eq!(reported_extension(Rs2Extension::VideoFrame, &s), Rs2Extension::VideoFrame);
}

#[test]
fn most_specific_frame_extension_is_reported_otherwise() {
    let s = ExtensionSupport { video_frame: true, depth_frame: true, disparity_frame: true, ..support() };
    assert_eq!(reported_extension(Rs2Extension::PoseFrame, &s), Rs2Extension::DisparityFrame);
    let s = ExtensionSupport { video_frame: true, depth_frame: true, ..support() };
    assert_eq!(reported_extension(Rs2Extension::PoseFrame, &s), Rs2Extension::DepthFrame);
    let s = ExtensionSupport { composite_frame: true, ..support() };
    assert_eq!(reported_extension(Rs2Extension::Points, &s), Rs2Extension::CompositeFrame);
    assert_eq!(reported_extension(Rs2Extension::Points, &support()), Rs2Extension::Unknown);
}

#[test]
fn profile_from_known_values() {
    let p = profile_from_queries(Some(Rs2StreamKind::Depth), Some(Rs2Format::Z16), 1, 5, 30).expect("profile");
    assert_eq!(p, StreamProfileData { stream: Rs2StreamKind::Depth, format: Rs2Format::Z16, index: 1, unique_id: 5, framerate: 30 });
}

#[test]
fn profile_refuses_unknown_values_and_negative_index() {
    for r in [
        profile_from_queries(None, Some(Rs2Format::Z16), 0, 0, 30),
        profile_from_queries(Some(Rs2StreamKind::Depth), None, 0, 0, 30),
        profile_from_queries(Some(Rs2StreamKind::Depth), Some(Rs2Format::Z16), -1, 0, 30),
    ] {
        match r {
            Err(FrameConstructionError::CouldNotGetFrameStreamProfile(Rs2Exception::InvalidValue, _)) => {}
            other => panic!("{:?}", other.is_ok()),
        }
    }
}

#[test]
fn pixel_buffer_for_each_kind_of_format() {
    let data: Vec<u8> = vec![0; 8];
    let g = Geometry { width: 2, height: 2, stride_bytes: 4, data_size_bytes: 8 };
    assert!(matches!(pixel_buffer_for(Rs2Format::Mjpeg, g, &data), Ok(None)));
    assert!(matches!(pixel_buffer_for(Rs2Format::Z16, g, &data), Ok(Some(_))));
    assert!(matches!(
        pixel_buffer_for(Rs2Format::Bgr8, g, &data),
        Err(FrameConstructionError::CouldNotGetData(Rs2Exception::InvalidValue, _))
    ));
    assert!(matches!(
        pixel_buffer_for(Rs2Format::Z16, g, &data[..6]),
        Err(FrameConstructionError::CouldNotGetData(Rs2Exception::InvalidValue, _))
    ));
}
