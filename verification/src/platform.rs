//! What the camera system is on each platform: its backend, its features
//! and the outcome of a system test.

use crate::errors::CameraError;
use crate::text::{push_line, texts};
use crate::types::Platform;
use vstd::prelude::*;

verus! {

/// Platform information structure.
#[derive(Debug, Clone, PartialEq, Eq)]
pub struct PlatformInfo {
    pub platform: Platform,
    pub backend: String,
    pub features: Vec<String>,
}

/// Individual camera test result.
#[derive(Debug, Clone, PartialEq, Eq)]
pub enum CameraTestResult {
    Success,
    InitError(String),
    CaptureError(String),
    NotAvailable,
}

/// System test result.
#[derive(Debug, Clone, PartialEq, Eq)]
pub struct SystemTestResult {
    pub platform: Platform,
    pub cameras_found: usize,
    pub test_results: Vec<(String, CameraTestResult)>,
}

/// What came of trying one camera.
#[derive(Debug, Clone, PartialEq, Eq)]
pub enum CameraProbe {
    /// The camera was listed as unavailable and not tried.
    Unavailable,
    /// The camera could not be initialised.
    InitFailed(CameraError),
    /// The camera was initialised but gave no frame.
    CaptureFailed(CameraError),
    /// The camera gave a frame.
    Captured,
}

/// The name of the camera backend of each platform.
pub open spec fn spec_backend(platform: Platform) -> Seq<char> {
    match platform {
        Platform::Windows => "DirectShow/MediaFoundation"@,
        Platform::MacOS => "AVFoundation"@,
        Platform::Linux => "V4L2 (Video4Linux2)"@,
        Platform::Unknown => "Unknown"@,
    }
}

/// The features of the camera backend of each platform.
pub open spec fn spec_features(platform: Platform) -> Seq<Seq<char>> {
    match platform {
        Platform::Windows => seq![
            "Hardware acceleration"@,
            "DirectShow filters"@,
            "Windows Media Foundation"@,
            "USB and integrated cameras"@,
        ],
        Platform::MacOS => seq![
            "AVFoundation framework"@,
            "Hardware acceleration"@,
            "FaceTime HD camera support"@,
            "USB and integrated cameras"@,
            "Advanced color management"@,
        ],
        Platform::Linux => seq![
            "V4L2 interface"@,
            "USB UVC cameras"@,
            "Hardware controls"@,
            "Multiple pixel formats"@,
            "Device-specific extensions"@,
        ],
        Platform::Unknown => seq!["Limited support"@],
    }
}

/// Whether `result` reports `probe`: the same kind, and for a failure the
/// display form of its error.
pub open spec fn reports(result: CameraTestResult, probe: CameraProbe) -> bool {
    match probe {
        CameraProbe::Unavailable => result == CameraTestResult::NotAvailable,
        CameraProbe::InitFailed(e) => result is InitError && result->InitError_0@
            == e.spec_prefix() + e.spec_message(),
        CameraProbe::CaptureFailed(e) => result is CaptureError && result->CaptureError_0@
            == e.spec_prefix() + e.spec_message(),
        CameraProbe::Captured => result == CameraTestResult::Success,
    }
}

impl CameraTestResult {
    /// The result that reports a probe.
    pub fn from_probe(probe: &CameraProbe) -> (result: CameraTestResult)
        ensures
            reports(result, *probe),
    {
        match probe {
            CameraProbe::Unavailable => CameraTestResult::NotAvailable,
            CameraProbe::InitFailed(e) => CameraTestResult::InitError(e.to_string()),
            CameraProbe::CaptureFailed(e) => CameraTestResult::CaptureError(e.to_string()),
            CameraProbe::Captured => CameraTestResult::Success,
        }
    }
}

/// Platform-specific camera system functions.
pub struct CameraSystem;

impl CameraSystem {
    /// Initialize the camera system for a platform. Windows and macOS
    /// always succeed; Linux succeeds when V4L2 is available; an unknown
    /// platform fails.
    pub fn initialize(platform: Platform, v4l2_available: bool) -> (result: Result<
        String,
        CameraError,
    >)
        ensures
            match platform {
                Platform::Windows => result is Ok && result->Ok_0@
                    == "Windows camera system initialized with DirectShow/MediaFoundation"@,
                Platform::MacOS => result is Ok && result->Ok_0@
                    == "macOS camera system initialized with AVFoundation"@,
                Platform::Linux => if v4l2_available {
                    result is Ok && result->Ok_0@ == "Linux camera system initialized with V4L2"@
                } else {
                    result is Err && result->Err_0 is InitializationError
                        && result->Err_0.spec_message() == "V4L2 not available on this system"@
                },
                Platform::Unknown => result is Err && result->Err_0 is InitializationError
                    && result->Err_0.spec_message() == "Unknown platform"@,
            },
    {
        match platform {
            Platform::Windows => Ok(
                "Windows camera system initialized with DirectShow/MediaFoundation".to_string(),
            ),
            Platform::MacOS => Ok("macOS camera system initialized with AVFoundation".to_string()),
            Platform::Linux => {
                if v4l2_available {
                    Ok("Linux camera system initialized with V4L2".to_string())
                } else {
                    Err(
                        CameraError::InitializationError(
                            "V4L2 not available on this system".to_string(),
                        ),
                    )
                }
            },
            Platform::Unknown => Err(
                CameraError::InitializationError("Unknown platform".to_string()),
            ),
        }
    }

    /// Get platform-specific information: the backend and its features.
    pub fn get_platform_info(platform: Platform) -> (result: Result<PlatformInfo, CameraError>)
        ensures
            result is Ok,
            result->Ok_0.platform == platform,
            result->Ok_0.backend@ == spec_backend(platform),
            texts(result->Ok_0.features@) == spec_features(platform),
    {
        let mut features: Vec<String> = Vec::new();
        let backend: &str = match platform {
            Platform::Windows => {
                push_line(&mut features, "Hardware acceleration");
                push_line(&mut features, "DirectShow filters");
                push_line(&mut features, "Windows Media Foundation");
                push_line(&mut features, "USB and integrated cameras");
                "DirectShow/MediaFoundation"
            },
            Platform::MacOS => {
                push_line(&mut features, "AVFoundation framework");
                push_line(&mut features, "Hardware acceleration");
                push_line(&mut features, "FaceTime HD camera support");
                push_line(&mut features, "USB and integrated cameras");
                push_line(&mut features, "Advanced color management");
                "AVFoundation"
            },
            Platform::Linux => {
                push_line(&mut features, "V4L2 interface");
                push_line(&mut features, "USB UVC cameras");
                push_line(&mut features, "Hardware controls");
                push_line(&mut features, "Multiple pixel formats");
                push_line(&mut features, "Device-specific extensions");
                "V4L2 (Video4Linux2)"
            },
            Platform::Unknown => {
                push_line(&mut features, "Limited support");
                "Unknown"
            },
        };
        Ok(PlatformInfo { platform, backend: backend.to_string(), features })
    }

    /// Test camera system functionality: turns the probe of each camera
    /// that was found into its test result, in order.
    pub fn test_system(platform: Platform, probes: &Vec<(String, CameraProbe)>) -> (result: Result<
        SystemTestResult,
        CameraError,
    >)
        ensures
            result is Ok,
            result->Ok_0.platform == platform,
            result->Ok_0.cameras_found == probes@.len(),
            result->Ok_0.test_results@.len() == probes@.len(),
            forall|i: int|
                0 <= i < probes@.len() ==> {
                    &&& (#[trigger] result->Ok_0.test_results@[i]).0@ == probes@[i].0@
                    &&& reports(result->Ok_0.test_results@[i].1, probes@[i].1)
                },
    {
        let len: usize = probes.len();
        let mut test_results: Vec<(String, CameraTestResult)> = Vec::with_capacity(len);
        let mut i: usize = 0;
        while i < len
            invariant
                len == probes@.len(),
                i <= len,
                test_results@.len() == i,
                forall|j: int|
                    0 <= j < i ==> {
                        &&& (#[trigger] test_results@[j]).0@ == probes@[j].0@
                        &&& reports(test_results@[j].1, probes@[j].1)
                    },
            decreases len - i,
        {
            let entry = &probes[i];
            let id: String = entry.0.clone();
            let outcome = CameraTestResult::from_probe(&entry.1);
            test_results.push((id, outcome));
            i = i + 1;
        }
        Ok(SystemTestResult { platform, cameras_found: len, test_results })
    }
}

/// The capabilities that every V4L2 device is taken to have.
pub open spec fn spec_device_caps() -> Seq<Seq<char>> {
    seq!["Video Capture"@, "Streaming"@, "Extended Controls"@]
}

/// Get V4L2 device capabilities: the same three for every device.
pub fn get_device_caps(_device_path: &str) -> (result: Result<Vec<String>, CameraError>)
    ensures
        result is Ok,
        texts(result->Ok_0@) == spec_device_caps(),
{
    let mut caps: Vec<String> = Vec::new();
    push_line(&mut caps, "Video Capture");
    push_line(&mut caps, "Streaming");
    push_line(&mut caps, "Extended Controls");
    Ok(caps)
}

/// The path of the V4L2 device with the given number, for 0 to 9.
pub open spec fn spec_device_path(index: int) -> Seq<char> {
    if index == 0 {
        "/dev/video0"@
    } else if index == 1 {
        "/dev/video1"@
    } else if index == 2 {
        "/dev/video2"@
    } else if index == 3 {
        "/dev/video3"@
    } else if index == 4 {
        "/dev/video4"@
    } else if index == 5 {
        "/dev/video5"@
    } else if index == 6 {
        "/dev/video6"@
    } else if index == 7 {
        "/dev/video7"@
    } else if index == 8 {
        "/dev/video8"@
    } else {
        "/dev/video9"@
    }
}

/// The paths of the devices that are present among the first `n`, in order.
pub open spec fn spec_present_devices(present: Seq<bool>, n: int) -> Seq<Seq<char>>
    decreases n,
{
    if n <= 0 {
        Seq::empty()
    } else if n <= present.len() && present[n - 1] {
        spec_present_devices(present, n - 1).push(spec_device_path(n - 1))
    } else {
        spec_present_devices(present, n - 1)
    }
}

/// The path of the V4L2 device with the given number.
fn device_path(index: usize) -> (path: &'static str)
    requires
        index < 10,
    ensures
        path@ == spec_device_path(index as int),
{
    if index == 0 {
        "/dev/video0"
    } else if index == 1 {
        "/dev/video1"
    } else if index == 2 {
        "/dev/video2"
    } else if index == 3 {
        "/dev/video3"
    } else if index == 4 {
        "/dev/video4"
    } else if index == 5 {
        "/dev/video5"
    } else if index == 6 {
        "/dev/video6"
    } else if index == 7 {
        "/dev/video7"
    } else if index == 8 {
        "/dev/video8"
    } else {
        "/dev/video9"
    }
}

/// List all V4L2 devices among `/dev/video0` to `/dev/video9`;
/// `present[i]` says whether device `i` exists. Entries past the tenth
/// are not looked at.
pub fn list_v4l2_devices(present: &[bool]) -> (result: Result<Vec<String>, CameraError>)
    ensures
        result is Ok,
        texts(result->Ok_0@) == spec_present_devices(present@, 10),
{
    let mut devices: Vec<String> = Vec::new();
    let mut i: usize = 0;
    while i < 10
        invariant
            i <= 10,
            texts(devices@) == spec_present_devices(present@, i as int),
        decreases 10 - i,
    {
        if i < present.len() && present[i] {
            push_line(&mut devices, device_path(i));
        }
        i = i + 1;
    }
    Ok(devices)
}

} // verus!
