//! Tags that the native camera layer reports for frames and streams.

use vstd::prelude::*;

verus! {

/// Pixel format of a frame's data buffer.
#[derive(Clone, Copy, Debug, PartialEq, Eq, Hash, Structural)]
pub enum Rs2Format {
    Any,
    Z16,
    Disparity16,
    Xyz32F,
    Yuyv,
    Rgb8,
    Bgr8,
    Rgba8,
    Bgra8,
    Y8,
    Y16,
    Raw10,
    Raw16,
    Raw8,
    Uyvy,
    MotionRaw,
    MotionXyz32F,
    GpioRaw,
    SixDof,
    Disparity32,
    Y10Bpack,
    Distance,
    Mjpeg,
    Y8I,
    Y12I,
    Inzi,
    Invi,
    W10,
    Z16H,
    Fg,
    Y411,
    Y16I,
    M420,
    CombinedMotion,
}

/// Capability category (extension) that the native layer reports for an object.
#[derive(Clone, Copy, Debug, PartialEq, Eq, Hash, Structural)]
pub enum Rs2Extension {
    Unknown,
    Debug,
    Info,
    Motion,
    Options,
    Video,
    Roi,
    DepthSensor,
    VideoFrame,
    MotionFrame,
    CompositeFrame,
    Points,
    DepthFrame,
    AdvancedMode,
    Record,
    VideoProfile,
    Playback,
    DepthStereoSensor,
    DisparityFrame,
    MotionProfile,
    PoseFrame,
    PoseProfile,
    Tm2,
    SoftwareDevice,
    SoftwareSensor,
    Pose,
    PoseSensor,
    ColorSensor,
    MotionSensor,
    FisheyeSensor,
}

/// The logical stream that produced a frame.
#[derive(Clone, Copy, Debug, PartialEq, Eq, Hash, Structural)]
pub enum Rs2StreamKind {
    Any,
    Depth,
    Color,
    Infrared,
    Fisheye,
    Gyro,
    Accel,
    Gpio,
    Pose,
    Confidence,
    Motion,
}

/// Clock to which a frame's timestamp is relative.
#[derive(Clone, Copy, Debug, PartialEq, Eq, Hash, Structural)]
pub enum Rs2TimestampDomain {
    HardwareClock,
    SystemTime,
    GlobalTime,
}

/// Kind of failure that the native layer reports.
#[derive(Clone, Copy, Debug, PartialEq, Eq, Hash, Structural)]
pub enum Rs2Exception {
    Unknown,
    CameraDisconnected,
    Backend,
    InvalidValue,
    WrongApiCallSequence,
    NotImplemented,
    DeviceInRecoveryMode,
    Io,
}

/// Kind of per-frame metadata that the native layer may report.
#[derive(Clone, Copy, Debug, PartialEq, Eq, Hash, Structural)]
pub enum Rs2FrameMetadata {
    FrameCounter,
    FrameTimestamp,
    SensorTimestamp,
    ActualExposure,
    GainLevel,
    AutoExposure,
    WhiteBalance,
    TimeOfArrival,
    Temperature,
    BackendTimestamp,
    ActualFps,
    FrameLaserPower,
    FrameLaserPowerMode,
    ExposurePriority,
    ExposureRoiLeft,
    ExposureRoiRight,
    ExposureRoiTop,
    ExposureRoiBottom,
    Brightness,
    Contrast,
    Saturation,
    Sharpness,
    AutoWhiteBalanceTemperature,
    BacklightCompensation,
    Hue,
    Gamma,
    ManualWhiteBalance,
    PowerLineFrequency,
    LowLightCompensation,
    FrameEmitterMode,
    FrameLedPower,
    RawFrameSize,
    GpioInputData,
    SequenceName,
    SequenceId,
    SequenceSize,
}

/// Number of metadata kinds.
pub const METADATA_KIND_COUNT: usize = 36;

/// Position of a metadata kind in the order in which the kinds are declared.
pub open spec fn metadata_index(kind: Rs2FrameMetadata) -> nat {
    match kind {
        Rs2FrameMetadata::FrameCounter => 0,
        Rs2FrameMetadata::FrameTimestamp => 1,
        Rs2FrameMetadata::SensorTimestamp => 2,
        Rs2FrameMetadata::ActualExposure => 3,
        Rs2FrameMetadata::GainLevel => 4,
        Rs2FrameMetadata::AutoExposure => 5,
        Rs2FrameMetadata::WhiteBalance => 6,
        Rs2FrameMetadata::TimeOfArrival => 7,
        Rs2FrameMetadata::Temperature => 8,
        Rs2FrameMetadata::BackendTimestamp => 9,
        Rs2FrameMetadata::ActualFps => 10,
        Rs2FrameMetadata::FrameLaserPower => 11,
        Rs2FrameMetadata::FrameLaserPowerMode => 12,
        Rs2FrameMetadata::ExposurePriority => 13,
        Rs2FrameMetadata::ExposureRoiLeft => 14,
        Rs2FrameMetadata::ExposureRoiRight => 15,
        Rs2FrameMetadata::ExposureRoiTop => 16,
        Rs2FrameMetadata::ExposureRoiBottom => 17,
        Rs2FrameMetadata::Brightness => 18,
        Rs2FrameMetadata::Contrast => 19,
        Rs2FrameMetadata::Saturation => 20,
        Rs2FrameMetadata::Sharpness => 21,
        Rs2FrameMetadata::AutoWhiteBalanceTemperature => 22,
        Rs2FrameMetadata::BacklightCompensation => 23,
        Rs2FrameMetadata::Hue => 24,
        Rs2FrameMetadata::Gamma => 25,
        Rs2FrameMetadata::ManualWhiteBalance => 26,
        Rs2FrameMetadata::PowerLineFrequency => 27,
        Rs2FrameMetadata::LowLightCompensation => 28,
        Rs2FrameMetadata::FrameEmitterMode => 29,
        Rs2FrameMetadata::FrameLedPower => 30,
        Rs2FrameMetadata::RawFrameSize => 31,
        Rs2FrameMetadata::GpioInputData => 32,
        Rs2FrameMetadata::SequenceName => 33,
        Rs2FrameMetadata::SequenceId => 34,
        Rs2FrameMetadata::SequenceSize => 35,
    }
}

impl Rs2FrameMetadata {
    /// Position of this kind in the order in which the kinds are declared.
    pub fn index(&self) -> (r: usize)
        ensures
            r == metadata_index(*self),
            r < METADATA_KIND_COUNT,
    {
        match self {
            Rs2FrameMetadata::FrameCounter => 0,
            Rs2FrameMetadata::FrameTimestamp => 1,
            Rs2FrameMetadata::SensorTimestamp => 2,
            Rs2FrameMetadata::ActualExposure => 3,
            Rs2FrameMetadata::GainLevel => 4,
            Rs2FrameMetadata::AutoExposure => 5,
            Rs2FrameMetadata::WhiteBalance => 6,
            Rs2FrameMetadata::TimeOfArrival => 7,
            Rs2FrameMetadata::Temperature => 8,
            Rs2FrameMetadata::BackendTimestamp => 9,
            Rs2FrameMetadata::ActualFps => 10,
            Rs2FrameMetadata::FrameLaserPower => 11,
            Rs2FrameMetadata::FrameLaserPowerMode => 12,
            Rs2FrameMetadata::ExposurePriority => 13,
            Rs2FrameMetadata::ExposureRoiLeft => 14,
            Rs2FrameMetadata::ExposureRoiRight => 15,
            Rs2FrameMetadata::ExposureRoiTop => 16,
            Rs2FrameMetadata::ExposureRoiBottom => 17,
            Rs2FrameMetadata::Brightness => 18,
            Rs2FrameMetadata::Contrast => 19,
            Rs2FrameMetadata::Saturation => 20,
            Rs2FrameMetadata::Sharpness => 21,
            Rs2FrameMetadata::AutoWhiteBalanceTemperature => 22,
            Rs2FrameMetadata::BacklightCompensation => 23,
            Rs2FrameMetadata::Hue => 24,
            Rs2FrameMetadata::Gamma => 25,
            Rs2FrameMetadata::ManualWhiteBalance => 26,
            Rs2FrameMetadata::PowerLineFrequency => 27,
            Rs2FrameMetadata::LowLightCompensation => 28,
            Rs2FrameMetadata::FrameEmitterMode => 29,
            Rs2FrameMetadata::FrameLedPower => 30,
            Rs2FrameMetadata::RawFrameSize => 31,
            Rs2FrameMetadata::GpioInputData => 32,
            Rs2FrameMetadata::SequenceName => 33,
            Rs2FrameMetadata::SequenceId => 34,
            Rs2FrameMetadata::SequenceSize => 35,
        }
    }

    /// The kind at position `i`, if there is one.
    pub fn from_index(i: usize) -> (r: Option<Rs2FrameMetadata>)
        ensures
            match r {
                Some(k) => metadata_index(k) == i,
                None => i >= METADATA_KIND_COUNT,
            },
    {
        match i {
            0 => Some(Rs2FrameMetadata::FrameCounter),
            1 => Some(Rs2FrameMetadata::FrameTimestamp),
            2 => Some(Rs2FrameMetadata::SensorTimestamp),
            3 => Some(Rs2FrameMetadata::ActualExposure),
            4 => Some(Rs2FrameMetadata::GainLevel),
            5 => Some(Rs2FrameMetadata::AutoExposure),
            6 => Some(Rs2FrameMetadata::WhiteBalance),
            7 => Some(Rs2FrameMetadata::TimeOfArrival),
            8 => Some(Rs2FrameMetadata::Temperature),
            9 => Some(Rs2FrameMetadata::BackendTimestamp),
            10 => Some(Rs2FrameMetadata::ActualFps),
            11 => Some(Rs2FrameMetadata::FrameLaserPower),
            12 => Some(Rs2FrameMetadata::FrameLaserPowerMode),
            13 => Some(Rs2FrameMetadata::ExposurePriority),
            14 => Some(Rs2FrameMetadata::ExposureRoiLeft),
            15 => Some(Rs2FrameMetadata::ExposureRoiRight),
            16 => Some(Rs2FrameMetadata::ExposureRoiTop),
            17 => Some(Rs2FrameMetadata::ExposureRoiBottom),
            18 => Some(Rs2FrameMetadata::Brightness),
            19 => Some(Rs2FrameMetadata::Contrast),
            20 => Some(Rs2FrameMetadata::Saturation),
            21 => Some(Rs2FrameMetadata::Sharpness),
            22 => Some(Rs2FrameMetadata::AutoWhiteBalanceTemperature),
            23 => Some(Rs2FrameMetadata::BacklightCompensation),
            24 => Some(Rs2FrameMetadata::Hue),
            25 => Some(Rs2FrameMetadata::Gamma),
            26 => Some(Rs2FrameMetadata::ManualWhiteBalance),
            27 => Some(Rs2FrameMetadata::PowerLineFrequency),
            28 => Some(Rs2FrameMetadata::LowLightCompensation),
            29 => Some(Rs2FrameMetadata::FrameEmitterMode),
            30 => Some(Rs2FrameMetadata::FrameLedPower),
            31 => Some(Rs2FrameMetadata::RawFrameSize),
            32 => Some(Rs2FrameMetadata::GpioInputData),
            33 => Some(Rs2FrameMetadata::SequenceName),
            34 => Some(Rs2FrameMetadata::SequenceId),
            35 => Some(Rs2FrameMetadata::SequenceSize),
            _ => None,
        }
    }
}

/// Distinct metadata kinds stand at distinct positions below the count.
pub proof fn lemma_metadata_index_distinct(a: Rs2FrameMetadata, b: Rs2FrameMetadata)
    ensures
        metadata_index(a) < METADATA_KIND_COUNT,
        metadata_index(a) == metadata_index(b) ==> a == b,
{
}

} // verus!
