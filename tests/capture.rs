use espcam::camera::{CameraConfig, DriverConfig, InitError, PinMap, CONVERT_JPEG_QUALITY};
use espcam::formats::{CodeError, FbGrabMode, FbLocation, FrameSize, PixelFormat};
use espcam::session::{Camera, CaptureAction, CaptureError, CaptureEvent, CapturePhase, Encoding};

/// A frame source that stands in for the sensor driver and its converters.
struct Synthetic {
    format: PixelFormat,
    data: Vec<u8>,
    has_frame: bool,
    converter_fails: bool,
    outstanding: bool,
    acquires: usize,
    releases: usize,
    conversions: usize,
}

impl Synthetic {
    fn new(format: PixelFormat, data: Vec<u8>) -> Synthetic {
        Synthetic {
            format,
            data,
            has_frame: true,
            converter_fails: false,
            outstanding: false,
            acquires: 0,
            releases: 0,
            conversions: 0,
        }
    }

    fn acquire(&mut self) -> CaptureEvent {
        assert!(!self.outstanding, "re-entrant acquire");
        if !self.has_frame {
            return CaptureEvent::NoFrame;
        }
        self.outstanding = true;
        self.acquires += 1;
        CaptureEvent::FrameAcquired(self.format)
    }

    fn convert(&mut self, header: &[u8]) -> CaptureEvent {
        assert!(self.outstanding);
        self.conversions += 1;
        if self.converter_fails {
            return CaptureEvent::EncodeFailed;
        }
        let mut out = header.to_vec();
        out.extend_from_slice(&[0x00, 0x10, 0x20]);
        CaptureEvent::Encoded(out)
    }

    fn release(&mut self) {
        assert!(self.outstanding, "release without a frame");
        self.outstanding = false;
        self.releases += 1;
    }
}

fn run(cam: &mut Camera, first: CaptureAction, src: &mut Synthetic) -> Result<Vec<u8>, CaptureError> {
    let mut action = first;
    loop {
        let event = match action {
            CaptureAction::AcquireFrame => src.acquire(),
            CaptureAction::CopyFrame => {
                assert!(src.outstanding);
                CaptureEvent::Encoded(src.data.clone())
            }
            CaptureAction::ConvertJpeg(q) => {
                assert_eq!(q, CONVERT_JPEG_QUALITY);
                src.convert(&[0xFF, 0xD8])
            }
            CaptureAction::ConvertBmp => src.convert(b"BM"),
            CaptureAction::ReleaseFrame(result) => {
                src.release();
                return result;
            }
            CaptureAction::Complete(result) => return result,
            CaptureAction::Ignore => panic!("event ignored"),
        };
        action = cam.step(event);
    }
}

fn session(format: PixelFormat, quality: i32) -> Camera {
    let mut config = CameraConfig::new_jpeg_ov2640();
    config.pixel_format = format;
    config.jpeg_quality = quality;
    Camera::new(config, 0).unwrap()
}

fn pins() -> PinMap {
    PinMap {
        pwdn: 32,
        xclk: 0,
        sccb_sda: 26,
        sccb_scl: 27,
        d7: 35,
        d6: 34,
        d5: 39,
        d4: 36,
        d3: 21,
        d2: 19,
        d1: 18,
        d0: 5,
        vsync: 25,
        href: 23,
        pclk: 22,
    }
}

#[test]
fn jpeg_frame_is_passed_through_unchanged() {
    let mut cam = session(PixelFormat::JPEG, 12);
    let frame: Vec<u8> = (0..20000u32).map(|i| (i % 251) as u8).collect();
    let mut src = Synthetic::new(PixelFormat::JPEG, frame.clone());
    let first = cam.capture_jpeg();
    let out = run(&mut cam, first, &mut src).unwrap();
    assert_eq!(out.len(), 20000);
    assert_eq!(out, frame);
    assert_eq!(src.conversions, 0);
    assert_eq!(src.acquires, src.releases);
}

#[test]
fn rgb565_frame_is_converted_to_jpeg() {
    let mut cam = session(PixelFormat::RGB565, 12);
    let frame = vec![0x5Au8; 320 * 240 * 2];
    let mut src = Synthetic::new(PixelFormat::RGB565, frame);
    let first = cam.capture_jpeg();
    let out = run(&mut cam, first, &mut src).unwrap();
    assert!(!out.is_empty());
    assert_eq!(&out[..2], &[0xFF, 0xD8]);
    assert_eq!(src.conversions, 1);
    assert_eq!(src.acquires, 1);
    assert_eq!(src.releases, 1);
}

#[test]
fn bmp_capture_always_converts() {
    let mut cam = session(PixelFormat::JPEG, 12);
    let mut src = Synthetic::new(PixelFormat::JPEG, vec![0xFF, 0xD8, 0xFF, 0xD9]);
    let first = cam.capture_bmp();
    let out = run(&mut cam, first, &mut src).unwrap();
    assert_eq!(&out[..2], b"BM");
    assert_eq!(src.conversions, 1);
    assert_eq!(src.releases, 1);
}

#[test]
fn failed_conversion_still_returns_the_frame() {
    let mut cam = session(PixelFormat::RGB565, 12);
    let mut src = Synthetic::new(PixelFormat::RGB565, vec![1, 2, 3, 4]);
    src.converter_fails = true;
    let first = cam.capture_jpeg();
    let err = run(&mut cam, first, &mut src).unwrap_err();
    assert_eq!(err, CaptureError::ConversionFailed(Encoding::Jpeg));
    let first = cam.capture_bmp();
    let err = run(&mut cam, first, &mut src).unwrap_err();
    assert_eq!(err, CaptureError::ConversionFailed(Encoding::Bmp));
    assert_eq!(src.acquires, 2);
    assert_eq!(src.releases, 2);
    assert_eq!(cam.phase(), CapturePhase::Idle);
}

#[test]
fn missing_frame_is_a_per_request_error() {
    let mut cam = session(PixelFormat::JPEG, 12);
    let mut src = Synthetic::new(PixelFormat::JPEG, vec![0xFF, 0xD8]);
    src.has_frame = false;
    let first = cam.capture_jpeg();
    assert_eq!(run(&mut cam, first, &mut src), Err(CaptureError::NoFrame));
    assert_eq!(src.acquires, 0);
    assert_eq!(src.releases, 0);
    src.has_frame = true;
    let first = cam.capture_jpeg();
    assert_eq!(run(&mut cam, first, &mut src), Ok(vec![0xFF, 0xD8]));
}

#[test]
fn repeated_captures_of_a_stable_frame_agree() {
    let mut cam = session(PixelFormat::JPEG, 12);
    let frame = vec![0xFF, 0xD8, 0x01, 0x02, 0xFF, 0xD9];
    let mut src = Synthetic::new(PixelFormat::JPEG, frame.clone());
    for _ in 0..5 {
        let first = cam.capture_jpeg();
        let out = run(&mut cam, first, &mut src).unwrap();
        assert_eq!(out, frame);
        assert_eq!(&out[..2], &[0xFF, 0xD8]);
    }
    assert_eq!(src.acquires, 5);
    assert_eq!(src.releases, 5);
}

#[test]
fn serialized_captures_each_get_one_result() {
    let cam = std::sync::Mutex::new(session(PixelFormat::RGB565, 12));
    let src = std::sync::Mutex::new(Synthetic::new(PixelFormat::RGB565, vec![7; 64]));
    let n = 8;
    let mut results = Vec::new();
    for i in 0..n {
        let mut cam = cam.lock().unwrap();
        let mut src = src.lock().unwrap();
        src.converter_fails = i % 3 == 0;
        let first = cam.capture_jpeg();
        results.push(run(&mut *cam, first, &mut *src));
    }
    assert_eq!(results.len(), n);
    let src = src.lock().unwrap();
    assert_eq!(src.acquires, n);
    assert_eq!(src.releases, n);
}

#[test]
fn request_during_a_capture_is_refused_without_acquiring() {
    let mut cam = session(PixelFormat::JPEG, 12);
    assert!(matches!(cam.capture_jpeg(), CaptureAction::AcquireFrame));
    assert!(matches!(cam.capture_bmp(), CaptureAction::Complete(Err(CaptureError::Busy))));
    assert!(matches!(cam.step(CaptureEvent::FrameAcquired(PixelFormat::JPEG)), CaptureAction::CopyFrame));
    assert!(matches!(cam.capture_jpeg(), CaptureAction::Complete(Err(CaptureError::Busy))));
    match cam.step(CaptureEvent::Encoded(vec![9, 9])) {
        CaptureAction::ReleaseFrame(Ok(b)) => assert_eq!(b, vec![9, 9]),
        other => panic!("unexpected {:?}", other),
    }
    assert_eq!(cam.phase(), CapturePhase::Idle);
}

#[test]
fn unexpected_events_are_ignored() {
    let mut cam = session(PixelFormat::JPEG, 12);
    assert!(matches!(cam.step(CaptureEvent::Encoded(vec![1])), CaptureAction::Ignore));
    assert!(matches!(cam.step(CaptureEvent::FrameAcquired(PixelFormat::JPEG)), CaptureAction::Ignore));
    assert!(matches!(cam.step(CaptureEvent::NoFrame), CaptureAction::Ignore));
    assert_eq!(cam.phase(), CapturePhase::Idle);
}

#[test]
fn session_keeps_format_and_size() {
    let mut config = CameraConfig::new_jpeg_ov2640();
    config.pixel_format = PixelFormat::YUV422;
    config.frame_size = FrameSize::QVGA;
    let cam = Camera::new(config, 0).unwrap();
    assert_eq!(cam.pixel_format(), PixelFormat::YUV422);
    assert_eq!(cam.frame_size(), FrameSize::QVGA);
    assert_eq!(cam.phase(), CapturePhase::Idle);
}

#[test]
fn driver_failure_gives_no_session() {
    let config = CameraConfig::new_jpeg_ov2640();
    assert_eq!(Camera::new(config, 0x105).err(), Some(InitError::Driver(0x105)));
    assert_eq!(Camera::new(config, -1).err(), Some(InitError::Driver(-1)));
}

#[test]
fn ov2640_defaults() {
    let c = CameraConfig::new_jpeg_ov2640();
    assert_eq!(c.xclk_freq_hz, 20_000_000);
    assert_eq!(c.pixel_format, PixelFormat::JPEG);
    assert_eq!(c.frame_size, FrameSize::UXGA);
    assert_eq!(c.jpeg_quality, 12);
    assert_eq!(c.fb_count, 1);
    assert_eq!(c.fb_location, FbLocation::PSRAM);
    assert_eq!(c.grab_mode, FbGrabMode::WhenEmpty);
    assert_eq!(c.sccb_i2c_port, None);
}

#[test]
fn driver_config_maps_every_setting() {
    let mut c = CameraConfig::new_jpeg_ov2640();
    c.fb_location = FbLocation::DRAM;
    c.grab_mode = FbGrabMode::Latest;
    let d = DriverConfig::new(&c, &pins(), 1, 2).unwrap();
    assert_eq!(d.pin_pwdn, 32);
    assert_eq!(d.pin_reset, -1);
    assert_eq!(d.pin_sccb_sda, 26);
    assert_eq!(d.pin_d0, 5);
    assert_eq!(d.pin_pclk, 22);
    assert_eq!(d.xclk_freq_hz, 20_000_000);
    assert_eq!(d.ledc_timer, 1);
    assert_eq!(d.ledc_channel, 2);
    assert_eq!(d.pixel_format, 4);
    assert_eq!(d.frame_size, 13);
    assert_eq!(d.jpeg_quality, 12);
    assert_eq!(d.fb_count, 1);
    assert_eq!(d.fb_location, 1);
    assert_eq!(d.grab_mode, 1);
    assert_eq!(d.sccb_i2c_port, -1);
    c.sccb_i2c_port = Some(1);
    assert_eq!(DriverConfig::new(&c, &pins(), 0, 0).unwrap().sccb_i2c_port, 1);
}

#[test]
fn driver_config_refuses_bad_settings() {
    let mut c = CameraConfig::new_jpeg_ov2640();
    c.jpeg_quality = 64;
    assert_eq!(DriverConfig::new(&c, &pins(), 0, 0).err(), Some(InitError::QualityOutOfRange(64)));
    c.jpeg_quality = -1;
    assert_eq!(DriverConfig::new(&c, &pins(), 0, 0).err(), Some(InitError::QualityOutOfRange(-1)));
    c.jpeg_quality = 63;
    c.fb_count = 0;
    assert_eq!(DriverConfig::new(&c, &pins(), 0, 0).err(), Some(InitError::NoFrameBuffers));
    c.fb_count = 2;
    c.xclk_freq_hz = 3_000_000_000;
    assert_eq!(
        DriverConfig::new(&c, &pins(), 0, 0).err(),
        Some(InitError::ClockOutOfRange(3_000_000_000))
    );
    c.xclk_freq_hz = i32::MAX as u32;
    assert!(DriverConfig::new(&c, &pins(), 0, 0).is_ok());
}

#[test]
fn codes_round_trip() {
    let formats = [
        PixelFormat::RGB565,
        PixelFormat::YUV422,
        PixelFormat::YUV420,
        PixelFormat::GRAYSCALE,
        PixelFormat::JPEG,
        PixelFormat::RGB888,
        PixelFormat::RAW,
        PixelFormat::RGB444,
        PixelFormat::RGB555,
    ];
    for (i, f) in formats.iter().enumerate() {
        assert_eq!(f.code(), i as u32);
        assert_eq!(PixelFormat::try_from_code(i as u32), Ok(*f));
    }
    for v in 0..=22u32 {
        assert_eq!(FrameSize::try_from_code(v).unwrap().code(), v);
    }
    assert_eq!(FrameSize::S96X96.code(), 0);
    assert_eq!(FrameSize::QSXGA.code(), 21);
    assert_eq!(FrameSize::INVALID.code(), 22);
    assert_eq!(FbLocation::PSRAM.code(), 0);
    assert_eq!(FbLocation::try_from_code(1), Ok(FbLocation::DRAM));
    assert_eq!(FbGrabMode::WhenEmpty.code(), 0);
    assert_eq!(FbGrabMode::try_from_code(1), Ok(FbGrabMode::Latest));
    assert_eq!(u32::from(PixelFormat::JPEG), 4);
    assert_eq!(u32::from(FrameSize::UXGA), 13);
    assert_eq!(u32::from(FbLocation::DRAM), 1);
    assert_eq!(u32::from(FbGrabMode::Latest), 1);
    assert_eq!(PixelFormat::try_from(0u32), Ok(PixelFormat::RGB565));
    assert_eq!(FrameSize::try_from(4u32), Ok(FrameSize::S240X240));
    assert_eq!(FbLocation::try_from(0u32), Ok(FbLocation::PSRAM));
    assert_eq!(FbGrabMode::try_from(0u32), Ok(FbGrabMode::WhenEmpty));
}

#[test]
fn unknown_codes_are_refused() {
    assert_eq!(PixelFormat::try_from_code(9), Err(CodeError::PixelFormat(9)));
    assert_eq!(FrameSize::try_from_code(23), Err(CodeError::FrameSize(23)));
    assert_eq!(FbLocation::try_from_code(2), Err(CodeError::FbLocation(2)));
    assert_eq!(FbGrabMode::try_from_code(u32::MAX), Err(CodeError::FbGrabMode(u32::MAX)));
    assert_eq!(PixelFormat::try_from(100u32), Err(CodeError::PixelFormat(100)));
    assert_eq!(FrameSize::try_from(23u32), Err(CodeError::FrameSize(23)));
}
