use vstd::prelude::*;

use crate::formats::{
    fb_location_code, frame_size_code, grab_mode_code, pixel_format_code, FbGrabMode, FbLocation,
    FrameSize, PixelFormat,
};

verus! {

/// Largest driver-level JPEG quality (lower is better).
pub const MAX_SENSOR_JPEG_QUALITY: i32 = 63;

/// Status the driver reports for a successful initialization.
pub const DRIVER_OK: i32 = 0;

/// Pin number the driver reads as "not connected".
pub const PIN_NONE: i32 = -1;

/// Quality handed to the converter when a frame must be re-encoded as JPEG.
pub const CONVERT_JPEG_QUALITY: u8 = 80;

/// Settings of the image sensor, fixed for the lifetime of a session.
#[derive(Clone, Copy, Debug)]
pub struct CameraConfig {
    pub xclk_freq_hz: u32,
    pub pixel_format: PixelFormat,
    pub frame_size: FrameSize,
    pub jpeg_quality: i32,
    pub fb_count: usize,
    pub fb_location: FbLocation,
    pub grab_mode: FbGrabMode,
    pub sccb_i2c_port: Option<i32>,
}

impl CameraConfig {
    /// A configuration is usable when its quality is in the driver's range, it asks for
    /// at least one frame buffer, and its clock fits the driver's signed field.
    pub open spec fn is_valid(&self) -> bool {
        &&& 0 <= self.jpeg_quality <= MAX_SENSOR_JPEG_QUALITY
        &&& self.fb_count >= 1
        &&& self.xclk_freq_hz <= i32::MAX
    }

    /// JPEG straight from an OV2640 sensor at 20 MHz, UXGA, one buffer in external RAM.
    pub fn new_jpeg_ov2640() -> (r: CameraConfig)
        ensures
            r.xclk_freq_hz == 20_000_000,
            r.pixel_format == PixelFormat::JPEG,
            r.frame_size == FrameSize::UXGA,
            r.jpeg_quality == 12,
            r.fb_count == 1,
            r.fb_location == FbLocation::PSRAM,
            r.grab_mode == FbGrabMode::WhenEmpty,
            r.sccb_i2c_port is None,
            r.is_valid(),
    {
        CameraConfig {
            xclk_freq_hz: 20_000_000,
            pixel_format: PixelFormat::JPEG,
            frame_size: FrameSize::UXGA,
            jpeg_quality: 12,
            fb_count: 1,
            fb_location: FbLocation::PSRAM,
            grab_mode: FbGrabMode::WhenEmpty,
            sccb_i2c_port: None,
        }
    }
}

/// GPIO numbers of each pin role of the parallel camera interface.
#[derive(Clone, Copy, Debug)]
pub struct PinMap {
    pub pwdn: i32,
    pub xclk: i32,
    pub sccb_sda: i32,
    pub sccb_scl: i32,
    pub d7: i32,
    pub d6: i32,
    pub d5: i32,
    pub d4: i32,
    pub d3: i32,
    pub d2: i32,
    pub d1: i32,
    pub d0: i32,
    pub vsync: i32,
    pub href: i32,
    pub pclk: i32,
}

/// The driver's native description of a camera: every enumeration as its code.
#[derive(Clone, Copy, Debug)]
pub struct DriverConfig {
    pub pin_pwdn: i32,
    pub pin_reset: i32,
    pub pin_xclk: i32,
    pub pin_sccb_sda: i32,
    pub pin_sccb_scl: i32,
    pub pin_d7: i32,
    pub pin_d6: i32,
    pub pin_d5: i32,
    pub pin_d4: i32,
    pub pin_d3: i32,
    pub pin_d2: i32,
    pub pin_d1: i32,
    pub pin_d0: i32,
    pub pin_vsync: i32,
    pub pin_href: i32,
    pub pin_pclk: i32,
    pub xclk_freq_hz: i32,
    pub ledc_timer: u32,
    pub ledc_channel: u32,
    pub pixel_format: u32,
    pub frame_size: u32,
    pub jpeg_quality: i32,
    pub fb_count: usize,
    pub fb_location: u32,
    pub grab_mode: u32,
    pub sccb_i2c_port: i32,
}

/// Why a camera could not be brought up.
#[derive(Clone, Copy, Debug, PartialEq, Eq, Structural)]
pub enum InitError {
    /// The JPEG quality lies outside 0 to 63.
    QualityOutOfRange(i32),
    /// No frame buffer was asked for.
    NoFrameBuffers,
    /// The clock frequency does not fit the driver's field.
    ClockOutOfRange(u32),
    /// The driver's initialization reported this non-zero status.
    Driver(i32),
}

/// The error that `DriverConfig::new` gives for a configuration, if any.
pub open spec fn config_fault(c: CameraConfig) -> Option<InitError> {
    if !(0 <= c.jpeg_quality <= MAX_SENSOR_JPEG_QUALITY) {
        Some(InitError::QualityOutOfRange(c.jpeg_quality))
    } else if c.fb_count < 1 {
        Some(InitError::NoFrameBuffers)
    } else if c.xclk_freq_hz > i32::MAX {
        Some(InitError::ClockOutOfRange(c.xclk_freq_hz))
    } else {
        None
    }
}

impl DriverConfig {
    /// The native description holds each setting of `c` and each pin of `pins` in
    /// its own field; reset is left unconnected and an absent bus port reads -1.
    pub open spec fn describes(
        &self,
        c: CameraConfig,
        pins: PinMap,
        ledc_timer: u32,
        ledc_channel: u32,
    ) -> bool {
        &&& self.pin_pwdn == pins.pwdn
        &&& self.pin_reset == PIN_NONE
        &&& self.pin_xclk == pins.xclk
        &&& self.pin_sccb_sda == pins.sccb_sda
        &&& self.pin_sccb_scl == pins.sccb_scl
        &&& self.pin_d7 == pins.d7
        &&& self.pin_d6 == pins.d6
        &&& self.pin_d5 == pins.d5
        &&& self.pin_d4 == pins.d4
        &&& self.pin_d3 == pins.d3
        &&& self.pin_d2 == pins.d2
        &&& self.pin_d1 == pins.d1
        &&& self.pin_d0 == pins.d0
        &&& self.pin_vsync == pins.vsync
        &&& self.pin_href == pins.href
        &&& self.pin_pclk == pins.pclk
        &&& self.xclk_freq_hz == c.xclk_freq_hz as int
        &&& self.ledc_timer == ledc_timer
        &&& self.ledc_channel == ledc_channel
        &&& self.pixel_format == pixel_format_code(c.pixel_format)
        &&& self.frame_size == frame_size_code(c.frame_size)
        &&& self.jpeg_quality == c.jpeg_quality
        &&& self.fb_count == c.fb_count
        &&& self.fb_location == fb_location_code(c.fb_location)
        &&& self.grab_mode == grab_mode_code(c.grab_mode)
        &&& self.sccb_i2c_port == match c.sccb_i2c_port {
            Some(p) => p,
            None => PIN_NONE,
        }
    }

    /// Maps a configuration and its pins into the driver's description, or says
    /// which setting the driver could not take.
    pub fn new(c: &CameraConfig, pins: &PinMap, ledc_timer: u32, ledc_channel: u32) -> (r: Result<
        DriverConfig,
        InitError,
    >)
        ensures
            r is Ok <==> c.is_valid(),
            r matches Ok(d) ==> d.describes(*c, *pins, ledc_timer, ledc_channel),
            r matches Err(e) ==> config_fault(*c) == Some(e),
    {
        if c.jpeg_quality < 0 || c.jpeg_quality > MAX_SENSOR_JPEG_QUALITY {
            return Err(InitError::QualityOutOfRange(c.jpeg_quality));
        }
        if c.fb_count < 1 {
            return Err(InitError::NoFrameBuffers);
        }
        if c.xclk_freq_hz > i32::MAX as u32 {
            return Err(InitError::ClockOutOfRange(c.xclk_freq_hz));
        }
        let port = match c.sccb_i2c_port {
            Some(p) => p,
            None => PIN_NONE,
        };
        Ok(DriverConfig {
            pin_pwdn: pins.pwdn,
            pin_reset: PIN_NONE,
            pin_xclk: pins.xclk,
            pin_sccb_sda: pins.sccb_sda,
            pin_sccb_scl: pins.sccb_scl,
            pin_d7: pins.d7,
            pin_d6: pins.d6,
            pin_d5: pins.d5,
            pin_d4: pins.d4,
            pin_d3: pins.d3,
            pin_d2: pins.d2,
            pin_d1: pins.d1,
            pin_d0: pins.d0,
            pin_vsync: pins.vsync,
            pin_href: pins.href,
            pin_pclk: pins.pclk,
            xclk_freq_hz: c.xclk_freq_hz as i32,
            ledc_timer,
            ledc_channel,
            pixel_format: c.pixel_format.code(),
            frame_size: c.frame_size.code(),
            jpeg_quality: c.jpeg_quality,
            fb_count: c.fb_count,
            fb_location: c.fb_location.code(),
            grab_mode: c.grab_mode.code(),
            sccb_i2c_port: port,
        })
    }
}

} // verus!
