//! Configuration module.
//!
//! Read-only configuration values handed to the library by the surrounding
//! application, which loads them from the configuration file. Quantities the
//! library reasons about are held as plain integers: voltages in millivolts
//! and percentages in per-mille, so the battery checks are exact integer
//! comparisons.

use vstd::prelude::*;

verus! {

/// Flight configuration structure.
#[derive(Debug, Clone, Copy)]
pub struct Flight {
    /// Approximate expected flight length, in minutes.
    pub length: u32,
    /// Approximate expected maximum height, in meters.
    pub expected_max_height: u32,
}

impl Flight {
    /// Gets the approximate expected flight length, in minutes.
    pub fn length(self) -> (r: u32)
        ensures
            r == self.length,
    {
        self.length
    }

    /// Gets the approximate expected maximum height, in meters.
    pub fn expected_max_height(self) -> (r: u32)
        ensures
            r == self.expected_max_height,
    {
        self.expected_max_height
    }
}

/// Battery configuration structure.
///
/// Voltages are in millivolts and minimum percentages in per-mille, so a
/// full battery at 4.2 V reads 4200 and a threshold of 80% reads 800.
#[derive(Debug, Clone, Copy)]
pub struct Battery {
    /// Minimum voltage for the main battery when empty, at 0%, in millivolts.
    pub main_min: i64,
    /// Maximum voltage for the main battery when full, at 100%, in millivolts.
    pub main_max: i64,
    /// Minimum voltage for the modem battery when empty, at 0%, in millivolts.
    pub fona_min: i64,
    /// Maximum voltage for the modem battery when full, at 100%, in millivolts.
    pub fona_max: i64,
    /// Minimum admissible main battery level for the launch, in per-mille.
    pub main_min_percent: i64,
    /// Minimum admissible modem battery level for the launch, in per-mille.
    pub fona_min_percent: i64,
}

impl Battery {
    /// Gets the minimum voltage for the main battery, in millivolts.
    pub fn main_min(self) -> (r: i64)
        ensures
            r == self.main_min,
    {
        self.main_min
    }

    /// Gets the maximum voltage for the main battery, in millivolts.
    pub fn main_max(self) -> (r: i64)
        ensures
            r == self.main_max,
    {
        self.main_max
    }

    /// Gets the minimum voltage for the modem battery, in millivolts.
    pub fn fona_min(self) -> (r: i64)
        ensures
            r == self.fona_min,
    {
        self.fona_min
    }

    /// Gets the maximum voltage for the modem battery, in millivolts.
    pub fn fona_max(self) -> (r: i64)
        ensures
            r == self.fona_max,
    {
        self.fona_max
    }

    /// Gets the minimum admissible main battery level, in per-mille.
    pub fn main_min_percent(self) -> (r: i64)
        ensures
            r == self.main_min_percent,
    {
        self.main_min_percent
    }

    /// Gets the minimum admissible modem battery level, in per-mille.
    pub fn fona_min_percent(self) -> (r: i64)
        ensures
            r == self.fona_min_percent,
    {
        self.fona_min_percent
    }
}

/// Exposure setting.
#[derive(Debug, Clone, Copy, PartialEq, Eq, Structural)]
pub enum Exposure {
    /// Turns off exposure control.
    Off,
    /// Use automatic exposure mode.
    Auto,
    /// Select setting for night shooting.
    Night,
    /// Night preview mode.
    NightPreview,
    /// Select setting for back-lit subject.
    BackLight,
    /// Spot light mode.
    SpotLight,
    /// Select setting for sports (fast shutter etc.).
    Sports,
    /// Select setting optimized for snowy scenery.
    Snow,
    /// Select setting optimized for beach.
    Beach,
    /// Select setting for long exposures.
    VeryLong,
    /// Constrain fps to a fixed value.
    FixedFps,
    /// Anti-shake mode.
    AntiShake,
    /// Select setting optimized for fireworks.
    Fireworks,
}

impl Exposure {
    /// The camera command-line token for this exposure setting.
    pub fn as_str(&self) -> (s: &'static str)
        ensures
            s@ == exposure_token_spec(*self),
    {
        match *self {
            Exposure::Off => "off",
            Exposure::Auto => "auto",
            Exposure::Night => "night",
            Exposure::NightPreview => "nightpreview",
            Exposure::BackLight => "backlight",
            Exposure::SpotLight => "spotlight",
            Exposure::Sports => "sports",
            Exposure::Snow => "snow",
            Exposure::Beach => "beach",
            Exposure::VeryLong => "verylong",
            Exposure::FixedFps => "fixedfps",
            Exposure::AntiShake => "antishake",
            Exposure::Fireworks => "fireworks",
        }
    }
}

/// The camera command-line token of an exposure setting.
pub open spec fn exposure_token_spec(e: Exposure) -> Seq<char> {
    match e {
        Exposure::Off => "off"@,
        Exposure::Auto => "auto"@,
        Exposure::Night => "night"@,
        Exposure::NightPreview => "nightpreview"@,
        Exposure::BackLight => "backlight"@,
        Exposure::SpotLight => "spotlight"@,
        Exposure::Sports => "sports"@,
        Exposure::Snow => "snow"@,
        Exposure::Beach => "beach"@,
        Exposure::VeryLong => "verylong"@,
        Exposure::FixedFps => "fixedfps"@,
        Exposure::AntiShake => "antishake"@,
        Exposure::Fireworks => "fireworks"@,
    }
}

/// White balance setting.
#[derive(Debug, Clone, Copy, PartialEq, Eq, Structural)]
pub enum WhiteBalance {
    /// Turn off white balance calculation.
    Off,
    /// Automatic mode (default).
    Auto,
    /// Sunny mode.
    Sun,
    /// Cloudy mode.
    CloudShade,
    /// Tungsten lighting mode.
    Tungsten,
    /// Fluorescent lighting mode.
    Fluorescent,
    /// Incandescent lighting mode.
    Incandescent,
    /// Flash mode.
    Flash,
    /// Horizon mode.
    Horizon,
}

impl WhiteBalance {
    /// The camera command-line token for this white balance setting.
    pub fn as_str(&self) -> (s: &'static str)
        ensures
            s@ == white_balance_token_spec(*self),
    {
        match *self {
            WhiteBalance::Off => "off",
            WhiteBalance::Auto => "auto",
            WhiteBalance::Sun => "sun",
            WhiteBalance::CloudShade => "cloudshade",
            WhiteBalance::Tungsten => "tungsten",
            WhiteBalance::Fluorescent => "fluorescent",
            WhiteBalance::Incandescent => "incandescent",
            WhiteBalance::Flash => "flash",
            WhiteBalance::Horizon => "horizon",
        }
    }
}

/// The camera command-line token of a white balance setting.
pub open spec fn white_balance_token_spec(w: WhiteBalance) -> Seq<char> {
    match w {
        WhiteBalance::Off => "off"@,
        WhiteBalance::Auto => "auto"@,
        WhiteBalance::Sun => "sun"@,
        WhiteBalance::CloudShade => "cloudshade"@,
        WhiteBalance::Tungsten => "tungsten"@,
        WhiteBalance::Fluorescent => "fluorescent"@,
        WhiteBalance::Incandescent => "incandescent"@,
        WhiteBalance::Flash => "flash"@,
        WhiteBalance::Horizon => "horizon"@,
    }
}

/// Video configuration structure.
#[derive(Debug, Clone, Copy)]
pub struct Video {
    /// Height of the video, in px.
    pub height: u16,
    /// Width of the video, in px.
    pub width: u16,
    /// Rotation of the camera, in degrees.
    pub rotation: Option<u16>,
    /// Frames per second for the video.
    pub fps: u8,
    /// Bit rate for the video, in bits per second.
    pub bitrate: u32,
    /// Exposure configuration.
    pub exposure: Option<Exposure>,
    /// Brightness correction.
    pub brightness: Option<u8>,
    /// Contrast correction.
    pub contrast: Option<i8>,
    /// Sharpness configuration.
    pub sharpness: Option<i8>,
    /// Saturation configuration.
    pub saturation: Option<i8>,
    /// ISO for the image.
    pub iso: Option<u16>,
    /// Video stabilization.
    pub stabilization: Option<bool>,
    /// EV correction configuration.
    pub ev: Option<i8>,
    /// White balance configuration.
    pub white_balance: Option<WhiteBalance>,
}

impl Video {
    /// Gets the configured video height for the camera, in pixels.
    pub fn height(self) -> (r: u16)
        ensures
            r == self.height,
    {
        self.height
    }

    /// Gets the configured video width for the camera, in pixels.
    pub fn width(self) -> (r: u16)
        ensures
            r == self.width,
    {
        self.width
    }

    /// Gets the configured picture rotation for the camera, in degrees.
    pub fn rotation(self) -> (r: Option<u16>)
        ensures
            r == self.rotation,
    {
        self.rotation
    }

    /// Gets the configured video framerate for the camera, in frames per second.
    pub fn fps(self) -> (r: u8)
        ensures
            r == self.fps,
    {
        self.fps
    }

    /// Gets the configured bitrate for videos.
    pub fn bitrate(self) -> (r: u32)
        ensures
            r == self.bitrate,
    {
        self.bitrate
    }

    /// Gets the configured exposure for videos.
    pub fn exposure(self) -> (r: Option<Exposure>)
        ensures
            r == self.exposure,
    {
        self.exposure
    }

    /// Gets the configured brightness for videos.
    pub fn brightness(self) -> (r: Option<u8>)
        ensures
            r == self.brightness,
    {
        self.brightness
    }

    /// Gets the configured contrast for videos.
    pub fn contrast(self) -> (r: Option<i8>)
        ensures
            r == self.contrast,
    {
        self.contrast
    }

    /// Gets the configured sharpness for videos.
    pub fn sharpness(self) -> (r: Option<i8>)
        ensures
            r == self.sharpness,
    {
        self.sharpness
    }

    /// Gets the configured saturation for videos.
    pub fn saturation(self) -> (r: Option<i8>)
        ensures
            r == self.saturation,
    {
        self.saturation
    }

    /// Gets the configured ISO for videos.
    pub fn iso(self) -> (r: Option<u16>)
        ensures
            r == self.iso,
    {
        self.iso
    }

    /// Gets if video stabilization needs to be turned on.
    pub fn stabilization(self) -> (r: bool)
        ensures
            r == (self.stabilization == Some(true)),
    {
        self.stabilization == Some(true)
    }

    /// Gets the configured EV compensation for videos.
    pub fn ev(self) -> (r: Option<i8>)
        ensures
            r == self.ev,
    {
        self.ev
    }

    /// Gets the configured automatic white balance for videos.
    pub fn white_balance(self) -> (r: Option<WhiteBalance>)
        ensures
            r == self.white_balance,
    {
        self.white_balance
    }
}

/// Picture configuration structure.
#[derive(Debug, Clone, Copy)]
pub struct Picture {
    /// Height of the picture, in px.
    pub height: u16,
    /// Width of the picture, in px.
    pub width: u16,
    /// Rotation of the camera, in degrees.
    pub rotation: Option<u16>,
    /// Quality of the picture.
    pub quality: u8,
    /// Whether to add positioning metadata to pictures or not.
    pub exif: Option<bool>,
    /// Whether to save the raw sensor data as picture metadata.
    pub raw: Option<bool>,
    /// Exposure configuration.
    pub exposure: Option<Exposure>,
    /// Brightness correction.
    pub brightness: Option<u8>,
    /// Contrast correction.
    pub contrast: Option<i8>,
    /// Sharpness configuration.
    pub sharpness: Option<i8>,
    /// Saturation configuration.
    pub saturation: Option<i8>,
    /// ISO for the image.
    pub iso: Option<u16>,
    /// EV correction configuration.
    pub ev: Option<i8>,
    /// White balance configuration.
    pub white_balance: Option<WhiteBalance>,
    /// Interval between pictures during flight, in seconds.
    pub interval: u32,
    /// Repeat each picture after these seconds.
    pub repeat: Option<u32>,
    /// Timeout for first picture after launch, in seconds.
    pub first_timeout: u32,
}

impl Picture {
    /// Gets the configured picture height for the camera, in pixels.
    pub fn height(self) -> (r: u16)
        ensures
            r == self.height,
    {
        self.height
    }

    /// Gets the configured picture width for the camera, in pixels.
    pub fn width(self) -> (r: u16)
        ensures
            r == self.width,
    {
        self.width
    }

    /// Gets the configured picture rotation for the camera, in degrees.
    pub fn rotation(self) -> (r: Option<u16>)
        ensures
            r == self.rotation,
    {
        self.rotation
    }

    /// Gets the configured picture quality for the camera.
    pub fn quality(self) -> (r: u8)
        ensures
            r == self.quality,
    {
        self.quality
    }

    /// Gets whether the camera should add available positioning metadata to
    /// pictures.
    pub fn exif(self) -> (r: bool)
        ensures
            r == (self.exif == Some(true)),
    {
        self.exif == Some(true)
    }

    /// Gets whether the camera should add raw sensor data to pictures as
    /// metadata.
    pub fn raw(self) -> (r: bool)
        ensures
            r == (self.raw == Some(true)),
    {
        self.raw == Some(true)
    }

    /// Gets the configured exposure for pictures.
    pub fn exposure(self) -> (r: Option<Exposure>)
        ensures
            r == self.exposure,
    {
        self.exposure
    }

    /// Gets the configured brightness for pictures.
    pub fn brightness(self) -> (r: Option<u8>)
        ensures
            r == self.brightness,
    {
        self.brightness
    }

    /// Gets the configured contrast for pictures.
    pub fn contrast(self) -> (r: Option<i8>)
        ensures
            r == self.contrast,
    {
        self.contrast
    }

    /// Gets the configured sharpness for pictures.
    pub fn sharpness(self) -> (r: Option<i8>)
        ensures
            r == self.sharpness,
    {
        self.sharpness
    }

    /// Gets the configured saturation for pictures.
    pub fn saturation(self) -> (r: Option<i8>)
        ensures
            r == self.saturation,
    {
        self.saturation
    }

    /// Gets the configured ISO for pictures.
    pub fn iso(self) -> (r: Option<u16>)
        ensures
            r == self.iso,
    {
        self.iso
    }

    /// Gets the configured EV compensation for pictures.
    pub fn ev(self) -> (r: Option<i8>)
        ensures
            r == self.ev,
    {
        self.ev
    }

    /// Gets the configured automatic white balance for pictures.
    pub fn white_balance(self) -> (r: Option<WhiteBalance>)
        ensures
            r == self.white_balance,
    {
        self.white_balance
    }

    /// Gets the interval between pictures during flight, in seconds.
    pub fn interval(self) -> (r: u32)
        ensures
            r == self.interval,
    {
        self.interval
    }

    /// Gets the timeout for repeated pictures, in seconds.
    pub fn repeat(self) -> (r: Option<u32>)
        ensures
            r == self.repeat,
    {
        self.repeat
    }

    /// Gets the timeout for first picture after launch, in seconds.
    pub fn first_timeout(self) -> (r: u32)
        ensures
            r == self.first_timeout,
    {
        self.first_timeout
    }
}

/// Phone number representation.
#[derive(Debug, Clone)]
pub struct PhoneNumber(pub String);

impl PhoneNumber {
    /// Gets the phone number as a string.
    pub fn as_str(&self) -> (r: &str)
        ensures
            r@ == self.0@,
    {
        self.0.as_str()
    }
}

/// Positioning-receiver configuration structure.
#[derive(Debug, Clone)]
pub struct Gps {
    /// Serial console path.
    pub uart: String,
    /// Serial console baud rate.
    pub baud_rate: u32,
    /// Power GPIO pin number.
    pub power_pin: u64,
}

impl Gps {
    /// Gets the serial console path.
    pub fn uart(&self) -> (r: &str)
        ensures
            r@ == self.uart@,
    {
        self.uart.as_str()
    }

    /// Gets the serial console baud rate.
    pub fn baud_rate(&self) -> (r: u32)
        ensures
            r == self.baud_rate,
    {
        self.baud_rate
    }

    /// Gets the power GPIO pin number.
    pub fn power_pin(&self) -> (r: u64)
        ensures
            r == self.power_pin,
    {
        self.power_pin
    }
}

/// Modem configuration structure.
#[derive(Debug, Clone)]
pub struct Fona {
    /// Serial console path.
    pub uart: String,
    /// Serial console baud rate.
    pub baud_rate: u32,
    /// Power control GPIO pin number.
    pub power_pin: u64,
    /// Status GPIO pin number.
    pub status_pin: u64,
    /// SMS receiver phone number.
    pub sms_phone: PhoneNumber,
    /// Operator location service domain.
    pub location_service: String,
}

impl Fona {
    /// Gets the serial console path.
    pub fn uart(&self) -> (r: &str)
        ensures
            r@ == self.uart@,
    {
        self.uart.as_str()
    }

    /// Gets the serial console baud rate.
    pub fn baud_rate(&self) -> (r: u32)
        ensures
            r == self.baud_rate,
    {
        self.baud_rate
    }

    /// Gets the power GPIO pin number.
    pub fn power_pin(&self) -> (r: u64)
        ensures
            r == self.power_pin,
    {
        self.power_pin
    }

    /// Gets the status GPIO pin number.
    pub fn status_pin(&self) -> (r: u64)
        ensures
            r == self.status_pin,
    {
        self.status_pin
    }

    /// Gets the phone number for SMSs.
    pub fn sms_phone(&self) -> (r: &PhoneNumber)
        ensures
            r == &self.sms_phone,
    {
        &self.sms_phone
    }

    /// Gets the location service for network-assisted location retrieval.
    pub fn location_service(&self) -> (r: &str)
        ensures
            r@ == self.location_service@,
    {
        self.location_service.as_str()
    }
}

/// Telemetry configuration structure.
#[derive(Debug, Clone)]
pub struct Telemetry {
    /// Serial console path.
    pub uart: String,
    /// Serial console baud rate.
    pub baud_rate: u32,
}

impl Telemetry {
    /// Gets the serial console path.
    pub fn uart(&self) -> (r: &str)
        ensures
            r@ == self.uart@,
    {
        self.uart.as_str()
    }

    /// Gets the serial console baud rate.
    pub fn baud_rate(&self) -> (r: u32)
        ensures
            r == self.baud_rate,
    {
        self.baud_rate
    }
}

/// Configuration object.
#[derive(Debug, Clone)]
pub struct Config {
    /// Whether the application should run in debug mode or not.
    pub debug: Option<bool>,
    /// The data directory.
    pub data_dir: String,
    /// Flight configuration.
    pub flight: Flight,
    /// Battery configuration.
    pub battery: Battery,
    /// Video configuration.
    pub video: Video,
    /// Picture configuration.
    pub picture: Picture,
    /// Positioning-receiver configuration.
    pub gps: Gps,
    /// Modem configuration.
    pub fona: Fona,
    /// Telemetry configuration.
    pub telemetry: Telemetry,
}

impl Config {
    /// Gets whether the application should run in debug mode.
    pub fn debug(&self) -> (r: bool)
        ensures
            r == (self.debug == Some(true)),
    {
        self.debug == Some(true)
    }

    /// Gets the flight information.
    pub fn flight(&self) -> (r: Flight)
        ensures
            r == self.flight,
    {
        self.flight
    }

    /// Gets the battery configuration.
    pub fn battery(&self) -> (r: Battery)
        ensures
            r == self.battery,
    {
        self.battery
    }

    /// Gets the configuration for video.
    pub fn video(&self) -> (r: &Video)
        ensures
            r == &self.video,
    {
        &self.video
    }

    /// Gets the configuration for pictures.
    pub fn picture(&self) -> (r: &Picture)
        ensures
            r == &self.picture,
    {
        &self.picture
    }

    /// Gets the positioning-receiver configuration.
    pub fn gps(&self) -> (r: &Gps)
        ensures
            r == &self.gps,
    {
        &self.gps
    }

    /// Gets the modem configuration.
    pub fn fona(&self) -> (r: &Fona)
        ensures
            r == &self.fona,
    {
        &self.fona
    }

    /// Gets the telemetry configuration.
    pub fn telemetry(&self) -> (r: &Telemetry)
        ensures
            r == &self.telemetry,
    {
        &self.telemetry
    }

    /// Gets the configured data directory.
    pub fn data_dir(&self) -> (r: &str)
        ensures
            r@ == self.data_dir@,
    {
        self.data_dir.as_str()
    }
}

} // verus!
