use vstd::prelude::*;

verus! {

/// Pixel layouts the image sensor can deliver.
#[derive(Clone, Copy, Debug, PartialEq, Eq, Structural)]
#[allow(non_camel_case_types)]
pub enum PixelFormat {
    RGB565,
    YUV422,
    YUV420,
    GRAYSCALE,
    JPEG,
    RGB888,
    RAW,
    RGB444,
    RGB555,
}

/// Frame resolutions the sensor driver knows, smallest first, and its sentinel.
#[derive(Clone, Copy, Debug, PartialEq, Eq, Structural)]
#[allow(non_camel_case_types)]
pub enum FrameSize {
    S96X96,
    QQVGA,
    QCIF,
    HQVGA,
    S240X240,
    QVGA,
    CIF,
    HVGA,
    VGA,
    SVGA,
    XGA,
    HD,
    SXGA,
    UXGA,
    FHD,
    P_HD,
    P_3MP,
    QXGA,
    QHD,
    WQXGA,
    P_FHD,
    QSXGA,
    INVALID,
}

/// Memory that holds the frame buffers.
#[derive(Clone, Copy, Debug, PartialEq, Eq, Structural)]
pub enum FbLocation {
    DRAM,
    PSRAM,
}

/// Whether acquisition waits for an empty slot or hands out the newest frame.
#[derive(Clone, Copy, Debug, PartialEq, Eq, Structural)]
pub enum FbGrabMode {
    WhenEmpty,
    Latest,
}

/// A driver code that names no variant of the enumeration it was read as.
#[derive(Clone, Copy, Debug, PartialEq, Eq, Structural)]
pub enum CodeError {
    PixelFormat(u32),
    FrameSize(u32),
    FbLocation(u32),
    FbGrabMode(u32),
}

/// Code of the sensor driver's `pixformat_t`.
pub open spec fn pixel_format_code(f: PixelFormat) -> u32 {
    match f {
        PixelFormat::RGB565 => 0,
        PixelFormat::YUV422 => 1,
        PixelFormat::YUV420 => 2,
        PixelFormat::GRAYSCALE => 3,
        PixelFormat::JPEG => 4,
        PixelFormat::RGB888 => 5,
        PixelFormat::RAW => 6,
        PixelFormat::RGB444 => 7,
        PixelFormat::RGB555 => 8,
    }
}

/// Code of the sensor driver's `framesize_t`.
pub open spec fn frame_size_code(s: FrameSize) -> u32 {
    match s {
        FrameSize::S96X96 => 0,
        FrameSize::QQVGA => 1,
        FrameSize::QCIF => 2,
        FrameSize::HQVGA => 3,
        FrameSize::S240X240 => 4,
        FrameSize::QVGA => 5,
        FrameSize::CIF => 6,
        FrameSize::HVGA => 7,
        FrameSize::VGA => 8,
        FrameSize::SVGA => 9,
        FrameSize::XGA => 10,
        FrameSize::HD => 11,
        FrameSize::SXGA => 12,
        FrameSize::UXGA => 13,
        FrameSize::FHD => 14,
        FrameSize::P_HD => 15,
        FrameSize::P_3MP => 16,
        FrameSize::QXGA => 17,
        FrameSize::QHD => 18,
        FrameSize::WQXGA => 19,
        FrameSize::P_FHD => 20,
        FrameSize::QSXGA => 21,
        FrameSize::INVALID => 22,
    }
}

/// Code of the sensor driver's `camera_fb_location_t`.
pub open spec fn fb_location_code(l: FbLocation) -> u32 {
    match l {
        FbLocation::PSRAM => 0,
        FbLocation::DRAM => 1,
    }
}

/// Code of the sensor driver's `camera_grab_mode_t`.
pub open spec fn grab_mode_code(m: FbGrabMode) -> u32 {
    match m {
        FbGrabMode::WhenEmpty => 0,
        FbGrabMode::Latest => 1,
    }
}

/// Largest code of each enumeration.
pub const PIXEL_FORMAT_MAX_CODE: u32 = 8;
pub const FRAME_SIZE_MAX_CODE: u32 = 22;

impl PixelFormat {
    pub fn code(self) -> (r: u32)
        ensures
            r == pixel_format_code(self),
    {
        match self {
            PixelFormat::RGB565 => 0,
            PixelFormat::YUV422 => 1,
            PixelFormat::YUV420 => 2,
            PixelFormat::GRAYSCALE => 3,
            PixelFormat::JPEG => 4,
            PixelFormat::RGB888 => 5,
            PixelFormat::RAW => 6,
            PixelFormat::RGB444 => 7,
            PixelFormat::RGB555 => 8,
        }
    }

    /// Reads a driver code back; every code above the largest is refused.
    pub fn try_from_code(value: u32) -> (r: Result<PixelFormat, CodeError>)
        ensures
            r is Ok <==> value <= PIXEL_FORMAT_MAX_CODE,
            r matches Ok(f) ==> pixel_format_code(f) == value,
            r matches Err(e) ==> e == CodeError::PixelFormat(value),
    {
        match value {
            0 => Ok(PixelFormat::RGB565),
            1 => Ok(PixelFormat::YUV422),
            2 => Ok(PixelFormat::YUV420),
            3 => Ok(PixelFormat::GRAYSCALE),
            4 => Ok(PixelFormat::JPEG),
            5 => Ok(PixelFormat::RGB888),
            6 => Ok(PixelFormat::RAW),
            7 => Ok(PixelFormat::RGB444),
            8 => Ok(PixelFormat::RGB555),
            _ => Err(CodeError::PixelFormat(value)),
        }
    }
}


impl FrameSize {
    pub fn code(self) -> (r: u32)
        ensures
            r == frame_size_code(self),
    {
        match self {
            FrameSize::S96X96 => 0,
            FrameSize::QQVGA => 1,
            FrameSize::QCIF => 2,
            FrameSize::HQVGA => 3,
            FrameSize::S240X240 => 4,
            FrameSize::QVGA => 5,
            FrameSize::CIF => 6,
            FrameSize::HVGA => 7,
            FrameSize::VGA => 8,
            FrameSize::SVGA => 9,
            FrameSize::XGA => 10,
            FrameSize::HD => 11,
            FrameSize::SXGA => 12,
            FrameSize::UXGA => 13,
            FrameSize::FHD => 14,
            FrameSize::P_HD => 15,
            FrameSize::P_3MP => 16,
            FrameSize::QXGA => 17,
            FrameSize::QHD => 18,
            FrameSize::WQXGA => 19,
            FrameSize::P_FHD => 20,
            FrameSize::QSXGA => 21,
            FrameSize::INVALID => 22,
        }
    }

    /// Reads a driver code back; every code above the sentinel's is refused.
    pub fn try_from_code(value: u32) -> (r: Result<FrameSize, CodeError>)
        ensures
            r is Ok <==> value <= FRAME_SIZE_MAX_CODE,
            r matches Ok(s) ==> frame_size_code(s) == value,
            r matches Err(e) ==> e == CodeError::FrameSize(value),
    {
        match value {
            0 => Ok(FrameSize::S96X96),
            1 => Ok(FrameSize::QQVGA),
            2 => Ok(FrameSize::QCIF),
            3 => Ok(FrameSize::HQVGA),
            4 => Ok(FrameSize::S240X240),
            5 => Ok(FrameSize::QVGA),
            6 => Ok(FrameSize::CIF),
            7 => Ok(FrameSize::HVGA),
            8 => Ok(FrameSize::VGA),
            9 => Ok(FrameSize::SVGA),
            10 => Ok(FrameSize::XGA),
            11 => Ok(FrameSize::HD),
            12 => Ok(FrameSize::SXGA),
            13 => Ok(FrameSize::UXGA),
            14 => Ok(FrameSize::FHD),
            15 => Ok(FrameSize::P_HD),
            16 => Ok(FrameSize::P_3MP),
            17 => Ok(FrameSize::QXGA),
            18 => Ok(FrameSize::QHD),
            19 => Ok(FrameSize::WQXGA),
            20 => Ok(FrameSize::P_FHD),
            21 => Ok(FrameSize::QSXGA),
            22 => Ok(FrameSize::INVALID),
            _ => Err(CodeError::FrameSize(value)),
        }
    }
}

impl FbLocation {
    pub fn code(self) -> (r: u32)
        ensures
            r == fb_location_code(self),
    {
        match self {
            FbLocation::PSRAM => 0,
            FbLocation::DRAM => 1,
        }
    }

    pub fn try_from_code(value: u32) -> (r: Result<FbLocation, CodeError>)
        ensures
            r is Ok <==> value <= 1,
            r matches Ok(l) ==> fb_location_code(l) == value,
            r matches Err(e) ==> e == CodeError::FbLocation(value),
    {
        match value {
            0 => Ok(FbLocation::PSRAM),
            1 => Ok(FbLocation::DRAM),
            _ => Err(CodeError::FbLocation(value)),
        }
    }
}

impl FbGrabMode {
    pub fn code(self) -> (r: u32)
        ensures
            r == grab_mode_code(self),
    {
        match self {
            FbGrabMode::WhenEmpty => 0,
            FbGrabMode::Latest => 1,
        }
    }

    pub fn try_from_code(value: u32) -> (r: Result<FbGrabMode, CodeError>)
        ensures
            r is Ok <==> value <= 1,
            r matches Ok(m) ==> grab_mode_code(m) == value,
            r matches Err(e) ==> e == CodeError::FbGrabMode(value),
    {
        match value {
            0 => Ok(FbGrabMode::WhenEmpty),
            1 => Ok(FbGrabMode::Latest),
            _ => Err(CodeError::FbGrabMode(value)),
        }
    }
}

impl From<PixelFormat> for u32 {
    fn from(value: PixelFormat) -> (r: u32)
        ensures
            r == pixel_format_code(value),
    {
        value.code()
    }
}

impl vstd::std_specs::convert::FromSpecImpl<PixelFormat> for u32 {
    open spec fn obeys_from_spec() -> bool {
        true
    }

    open spec fn from_spec(v: PixelFormat) -> u32 {
        pixel_format_code(v)
    }
}

impl TryFrom<u32> for PixelFormat {
    type Error = CodeError;

    fn try_from(value: u32) -> (r: Result<PixelFormat, CodeError>) {
        PixelFormat::try_from_code(value)
    }
}

impl vstd::std_specs::convert::TryFromSpecImpl<u32> for PixelFormat {
    open spec fn obeys_try_from_spec() -> bool {
        true
    }

    /// The variant whose code is `v`, if any.
    open spec fn try_from_spec(v: u32) -> Result<PixelFormat, CodeError> {
        if v <= PIXEL_FORMAT_MAX_CODE {
            Ok(choose|x: PixelFormat| pixel_format_code(x) == v)
        } else {
            Err(CodeError::PixelFormat(v))
        }
    }
}

impl From<FrameSize> for u32 {
    fn from(value: FrameSize) -> (r: u32)
        ensures
            r == frame_size_code(value),
    {
        value.code()
    }
}

impl vstd::std_specs::convert::FromSpecImpl<FrameSize> for u32 {
    open spec fn obeys_from_spec() -> bool {
        true
    }

    open spec fn from_spec(v: FrameSize) -> u32 {
        frame_size_code(v)
    }
}

impl TryFrom<u32> for FrameSize {
    type Error = CodeError;

    fn try_from(value: u32) -> (r: Result<FrameSize, CodeError>) {
        FrameSize::try_from_code(value)
    }
}

impl vstd::std_specs::convert::TryFromSpecImpl<u32> for FrameSize {
    open spec fn obeys_try_from_spec() -> bool {
        true
    }

    /// The variant whose code is `v`, if any.
    open spec fn try_from_spec(v: u32) -> Result<FrameSize, CodeError> {
        if v <= FRAME_SIZE_MAX_CODE {
            Ok(choose|x: FrameSize| frame_size_code(x) == v)
        } else {
            Err(CodeError::FrameSize(v))
        }
    }
}

impl From<FbLocation> for u32 {
    fn from(value: FbLocation) -> (r: u32)
        ensures
            r == fb_location_code(value),
    {
        value.code()
    }
}

impl vstd::std_specs::convert::FromSpecImpl<FbLocation> for u32 {
    open spec fn obeys_from_spec() -> bool {
        true
    }

    open spec fn from_spec(v: FbLocation) -> u32 {
        fb_location_code(v)
    }
}

impl TryFrom<u32> for FbLocation {
    type Error = CodeError;

    fn try_from(value: u32) -> (r: Result<FbLocation, CodeError>) {
        FbLocation::try_from_code(value)
    }
}

impl vstd::std_specs::convert::TryFromSpecImpl<u32> for FbLocation {
    open spec fn obeys_try_from_spec() -> bool {
        true
    }

    /// The variant whose code is `v`, if any.
    open spec fn try_from_spec(v: u32) -> Result<FbLocation, CodeError> {
        if v <= 1 {
            Ok(choose|x: FbLocation| fb_location_code(x) == v)
        } else {
            Err(CodeError::FbLocation(v))
        }
    }
}

impl From<FbGrabMode> for u32 {
    fn from(value: FbGrabMode) -> (r: u32)
        ensures
            r == grab_mode_code(value),
    {
        value.code()
    }
}

impl vstd::std_specs::convert::FromSpecImpl<FbGrabMode> for u32 {
    open spec fn obeys_from_spec() -> bool {
        true
    }

    open spec fn from_spec(v: FbGrabMode) -> u32 {
        grab_mode_code(v)
    }
}

impl TryFrom<u32> for FbGrabMode {
    type Error = CodeError;

    fn try_from(value: u32) -> (r: Result<FbGrabMode, CodeError>) {
        FbGrabMode::try_from_code(value)
    }
}

impl vstd::std_specs::convert::TryFromSpecImpl<u32> for FbGrabMode {
    open spec fn obeys_try_from_spec() -> bool {
        true
    }

    /// The variant whose code is `v`, if any.
    open spec fn try_from_spec(v: u32) -> Result<FbGrabMode, CodeError> {
        if v <= 1 {
            Ok(choose|x: FbGrabMode| grab_mode_code(x) == v)
        } else {
            Err(CodeError::FbGrabMode(v))
        }
    }
}

/// Reading back the code of any variant gives that variant: the mapping to driver
/// codes is one to one.
pub proof fn lemma_codes_round_trip(f: PixelFormat, s: FrameSize, l: FbLocation, m: FbGrabMode)
    ensures
        forall|g: PixelFormat| pixel_format_code(g) == pixel_format_code(f) ==> g == f,
        forall|t: FrameSize| frame_size_code(t) == frame_size_code(s) ==> t == s,
        forall|k: FbLocation| fb_location_code(k) == fb_location_code(l) ==> k == l,
        forall|n: FbGrabMode| grab_mode_code(n) == grab_mode_code(m) ==> n == m,
        pixel_format_code(f) <= PIXEL_FORMAT_MAX_CODE,
        frame_size_code(s) <= FRAME_SIZE_MAX_CODE,
        fb_location_code(l) <= 1,
        grab_mode_code(m) <= 1,
{
}

} // verus!
