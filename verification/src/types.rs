//! Platform names and the camera frame that the quality engine consumes.

use vstd::prelude::*;

verus! {

/// The operating systems the camera layer knows about.
#[derive(Debug, Clone, Copy, PartialEq, Eq, Structural)]
pub enum Platform {
    Windows,
    MacOS,
    Linux,
    Unknown,
}

/// Compares two string slices with `str`'s `==`: true exactly when they
/// hold the same characters.
#[verifier::external_body]
fn str_eq(a: &str, b: &str) -> (same: bool)
    ensures
        same == (a@ == b@),
{
    a == b
}

impl Platform {
    /// The platform that an operating-system name stands for.
    pub open spec fn spec_current(os: Seq<char>) -> Platform {
        if os == "windows"@ {
            Platform::Windows
        } else if os == "macos"@ {
            Platform::MacOS
        } else if os == "linux"@ {
            Platform::Linux
        } else {
            Platform::Unknown
        }
    }

    /// Maps the name of the running operating system, as the build target
    /// spells it, to a platform; any other name is `Unknown`.
    pub fn current(os: &str) -> (platform: Self)
        ensures
            platform == Self::spec_current(os@),
    {
        if str_eq(os, "windows") {
            Platform::Windows
        } else if str_eq(os, "macos") {
            Platform::MacOS
        } else if str_eq(os, "linux") {
            Platform::Linux
        } else {
            Platform::Unknown
        }
    }

    /// The lower-case name of each platform.
    pub open spec fn spec_as_str(self) -> Seq<char> {
        match self {
            Platform::Windows => "windows"@,
            Platform::MacOS => "macos"@,
            Platform::Linux => "linux"@,
            Platform::Unknown => "unknown"@,
        }
    }

    /// Get platform as string.
    pub fn as_str(&self) -> (name: &'static str)
        ensures
            name@ == self.spec_as_str(),
    {
        match self {
            Platform::Windows => "windows",
            Platform::MacOS => "macos",
            Platform::Linux => "linux",
            Platform::Unknown => "unknown",
        }
    }
}

/// White balance presets; `Custom` carries a colour temperature in Kelvin.
#[derive(Debug, Clone, Copy, PartialEq, Eq, Structural)]
pub enum WhiteBalance {
    Auto,
    Daylight,
    Fluorescent,
    Incandescent,
    Flash,
    Cloudy,
    Shade,
    Custom(u32),
}

/// The colour temperature of a white balance setting in Kelvin, as a
/// signed 32-bit number: `-1` for automatic, the usual temperature for
/// each preset, and for a custom setting its own temperature, wrapped
/// into the signed range.
pub open spec fn spec_white_balance_to_kelvin(wb: WhiteBalance) -> int {
    match wb {
        WhiteBalance::Auto => -1,
        WhiteBalance::Incandescent => 2700,
        WhiteBalance::Fluorescent => 4200,
        WhiteBalance::Daylight => 5500,
        WhiteBalance::Flash => 5500,
        WhiteBalance::Cloudy => 6500,
        WhiteBalance::Shade => 7500,
        WhiteBalance::Custom(temp) => if temp <= i32::MAX {
            temp as int
        } else {
            temp - 0x1_0000_0000
        },
    }
}

/// Convert a white balance setting to its colour temperature in Kelvin.
pub fn white_balance_to_kelvin(wb: &WhiteBalance) -> (kelvin: i32)
    ensures
        kelvin == spec_white_balance_to_kelvin(*wb),
{
    match wb {
        WhiteBalance::Auto => -1,
        WhiteBalance::Incandescent => 2700,
        WhiteBalance::Fluorescent => 4200,
        WhiteBalance::Daylight => 5500,
        WhiteBalance::Flash => 5500,
        WhiteBalance::Cloudy => 6500,
        WhiteBalance::Shade => 7500,
        WhiteBalance::Custom(temp) => {
            if *temp <= 0x7fff_ffff {
                *temp as i32
            } else {
                (*temp - 0x8000_0000) as i32 + i32::MIN
            }
        },
    }
}

/// Produces the textual form of a fresh random (version 4) identifier with
/// `uuid::Uuid::new_v4` and its `Display`: 36 characters, hyphenated. Which
/// identifier comes out is not predictable. Panics only if the operating
/// system cannot supply random bytes.
#[verifier::external_body]
fn fresh_frame_id() -> (id: String)
    ensures
        id@.len() == 36,
{
    uuid::Uuid::new_v4().to_string()
}

/// Reads the wall clock with `chrono::Utc::now` and returns it as
/// milliseconds since the Unix epoch (`DateTime::timestamp_millis`). The
/// clock is read as a span since the epoch, so the result is never
/// negative; nothing else is known of it. Panics only if the system clock
/// stands before the epoch.
#[verifier::external_body]
fn now_millis() -> (millis: i64)
    ensures
        millis >= 0,
{
    chrono::Utc::now().timestamp_millis()
}

/// One captured image: tightly packed RGB, three bytes per pixel, row-major.
#[derive(Debug, Clone)]
pub struct CameraFrame {
    pub id: String,
    pub data: Vec<u8>,
    pub width: u32,
    pub height: u32,
    pub format: String,
    /// Capture time in milliseconds since the Unix epoch.
    pub timestamp: i64,
    pub device_id: String,
    pub size_bytes: usize,
}

impl CameraFrame {
    /// A frame can be analysed when it has pixels, its pixel count fits in
    /// 32 bits and its buffer holds exactly three bytes for each pixel.
    pub open spec fn well_formed(&self) -> bool {
        &&& self.width > 0
        &&& self.height > 0
        &&& self.width * self.height <= u32::MAX
        &&& self.data@.len() == self.width * self.height * 3
    }

    /// Create new camera frame, with a fresh identifier, the current time
    /// and the format `RGB8`.
    pub fn new(data: Vec<u8>, width: u32, height: u32, device_id: String) -> (frame: Self)
        ensures
            frame.data == data,
            frame.width == width,
            frame.height == height,
            frame.device_id == device_id,
            frame.format@ == "RGB8"@,
            frame.size_bytes == data@.len(),
            frame.id@.len() == 36,
            frame.timestamp >= 0,
    {
        let size_bytes: usize = data.len();
        CameraFrame {
            id: fresh_frame_id(),
            data,
            width,
            height,
            format: "RGB8".to_string(),
            timestamp: now_millis(),
            device_id,
            size_bytes,
        }
    }

    /// Set format.
    pub fn with_format(self, format: String) -> (frame: Self)
        ensures
            frame == (CameraFrame { format, ..self }),
    {
        let mut frame = self;
        frame.format = format;
        frame
    }

    /// The width-to-height ratio in millionths, rounded down.
    pub open spec fn spec_aspect_ratio(&self) -> int {
        self.width * 1_000_000 / (self.height as int)
    }

    /// Get frame aspect ratio, in millionths.
    pub fn aspect_ratio(&self) -> (ratio: u64)
        requires
            self.height > 0,
        ensures
            ratio == self.spec_aspect_ratio(),
    {
        (self.width as u64) * 1_000_000 / (self.height as u64)
    }

    /// Check if frame is valid.
    pub fn is_valid(&self) -> (valid: bool)
        ensures
            valid == self.well_formed(),
    {
        if self.width == 0 || self.height == 0 {
            return false;
        }
        proof {
            vstd::arithmetic::mul::lemma_mul_upper_bound(
                self.width as int,
                u32::MAX as int,
                self.height as int,
                u32::MAX as int,
            );
        }
        let pixels: u64 = (self.width as u64) * (self.height as u64);
        if pixels > 0xffff_ffff {
            return false;
        }
        (self.data.len() as u128) == (pixels as u128) * 3
    }
}

} // verus!
