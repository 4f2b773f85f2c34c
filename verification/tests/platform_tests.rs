use crabcamera::errors::CameraError;
use crabcamera::platform::{
    get_device_caps, list_v4l2_devices, CameraProbe, CameraSystem, CameraTestResult,
};
use crabcamera::types::{white_balance_to_kelvin, CameraFrame, Platform, WhiteBalance};
use crabcamera::{current_platform, current_platform_string, get_info, DESCRIPTION, NAME, VERSION};

const OS_NAMES: [&str; 3] = ["windows", "macos", "linux"];

#[test]
fn lib_test_platform_detection() {
    for os in OS_NAMES {
        let platform = current_platform(os);
        assert_ne!(platform, Platform::Unknown);
    }
}

#[test]
fn test_platform_string() {
    for os in OS_NAMES {
        let platform_str = current_platform_string(os);
        assert!(!platform_str.is_empty());
    }
}

#[test]
fn test_crate_info() {
    let info = get_info("linux");
    assert_eq!(info.name, "crabcamera");
    assert!(!info.version.is_empty());
    assert!(!info.description.is_empty());
}

#[test]
fn platform_tests_test_platform_detection() {
    for os in ["windows", "macos", "linux", "freebsd"] {
        let platform = Platform::current(os);

        assert!(matches!(
            platform,
            Platform::Windows | Platform::MacOS | Platform::Linux | Platform::Unknown
        ));

        let platform_str = platform.as_str();
        assert!(!platform_str.is_empty());
        assert!(["windows", "macos", "linux", "unknown"].contains(&platform_str));
    }
}

#[test]
fn test_platform_string_consistency() {
    let platforms = [
        Platform::Windows,
        Platform::MacOS,
        Platform::Linux,
        Platform::Unknown,
    ];

    for platform in platforms {
        let str_repr = platform.as_str();
        assert!(!str_repr.is_empty());
        assert!(str_repr.len() > 2);
    }
}

#[test]
fn test_platform_comparison() {
    assert_eq!(Platform::Windows, Platform::Windows);
    assert_ne!(Platform::Windows, Platform::MacOS);
    assert_ne!(Platform::MacOS, Platform::Linux);
    assert_ne!(Platform::Linux, Platform::Unknown);
}

#[test]
fn test_device_id_parsing() {
    let valid_ids = vec!["0", "1", "2", "10"];
    for id in valid_ids {
        let parsed: Result<u32, _> = id.parse();
        assert!(parsed.is_ok(), "Device ID '{}' should be parseable", id);
    }

    let invalid_ids = vec!["abc", "-1", "", "1.5", "0x1"];
    for id in invalid_ids {
        let parsed: Result<u32, _> = id.parse();
        assert!(
            parsed.is_err(),
            "Device ID '{}' should not be parseable",
            id
        );
    }
}

#[test]
fn test_camera_system_operations() {
    for platform in [
        Platform::Windows,
        Platform::MacOS,
        Platform::Linux,
        Platform::Unknown,
    ] {
        let init_result = CameraSystem::initialize(platform, true);
        match init_result {
            Ok(message) => {
                assert!(!message.is_empty(), "Init message should not be empty");
                assert!(message.len() > 10, "Init message should be descriptive");
            }
            Err(_) => {
                assert_eq!(platform, Platform::Unknown);
            }
        }

        let platform_result = CameraSystem::get_platform_info(platform);
        match platform_result {
            Ok(info) => {
                assert!(!info.backend.is_empty(), "Backend should be specified");
                assert!(!info.features.is_empty(), "Should have some features");

                let platform_str = info.platform.as_str();
                let valid_platforms = vec!["windows", "linux", "macos", "unknown"];
                assert!(
                    valid_platforms.contains(&platform_str),
                    "Platform should be valid: {}",
                    platform_str
                );
            }
            Err(_) => panic!("platform information is always available"),
        }
    }
}

#[test]
fn test_camera_test_result_variants() {
    let test_results = vec![
        CameraTestResult::Success,
        CameraTestResult::InitError("Init failed".to_string()),
        CameraTestResult::CaptureError("Capture failed".to_string()),
        CameraTestResult::NotAvailable,
    ];

    for result in test_results {
        match result {
            CameraTestResult::Success => {}
            CameraTestResult::InitError(msg) => {
                assert_eq!(msg, "Init failed");
            }
            CameraTestResult::CaptureError(msg) => {
                assert_eq!(msg, "Capture failed");
            }
            CameraTestResult::NotAvailable => {}
        }
    }
}

#[test]
fn platform_current_maps_each_name() {
    assert_eq!(Platform::current("windows"), Platform::Windows);
    assert_eq!(Platform::current("macos"), Platform::MacOS);
    assert_eq!(Platform::current("linux"), Platform::Linux);
    assert_eq!(Platform::current("Linux"), Platform::Unknown);
    assert_eq!(Platform::current(""), Platform::Unknown);
    assert_eq!(Platform::current("android"), Platform::Unknown);
}

#[test]
fn platform_names_round_trip() {
    for platform in [Platform::Windows, Platform::MacOS, Platform::Linux] {
        assert_eq!(Platform::current(platform.as_str()), platform);
    }
    assert_eq!(Platform::Unknown.as_str(), "unknown");
    assert_eq!(current_platform_string("macos"), "macos");
    assert_eq!(current_platform_string("plan9"), "unknown");
}

#[test]
fn crate_info_holds_the_constants() {
    let info = get_info("windows");
    assert_eq!(info.name, NAME);
    assert_eq!(info.version, VERSION);
    assert_eq!(info.version, "0.2.0");
    assert_eq!(info.description, DESCRIPTION);
    assert_eq!(info.platform, Platform::Windows);
}

#[test]
fn initialize_messages_are_exact() {
    assert_eq!(
        CameraSystem::initialize(Platform::Windows, false).unwrap(),
        "Windows camera system initialized with DirectShow/MediaFoundation"
    );
    assert_eq!(
        CameraSystem::initialize(Platform::MacOS, false).unwrap(),
        "macOS camera system initialized with AVFoundation"
    );
    assert_eq!(
        CameraSystem::initialize(Platform::Linux, true).unwrap(),
        "Linux camera system initialized with V4L2"
    );
    assert_eq!(
        CameraSystem::initialize(Platform::Linux, false),
        Err(CameraError::InitializationError(
            "V4L2 not available on this system".to_string()
        ))
    );
    assert_eq!(
        CameraSystem::initialize(Platform::Unknown, true),
        Err(CameraError::InitializationError(
            "Unknown platform".to_string()
        ))
    );
}

#[test]
fn platform_info_lists_backend_and_features() {
    let info = CameraSystem::get_platform_info(Platform::Linux).unwrap();
    assert_eq!(info.platform, Platform::Linux);
    assert_eq!(info.backend, "V4L2 (Video4Linux2)");
    assert_eq!(
        info.features,
        vec![
            "V4L2 interface",
            "USB UVC cameras",
            "Hardware controls",
            "Multiple pixel formats",
            "Device-specific extensions"
        ]
    );
    let info = CameraSystem::get_platform_info(Platform::Windows).unwrap();
    assert_eq!(info.backend, "DirectShow/MediaFoundation");
    assert_eq!(info.features.len(), 4);
    assert_eq!(info.features[2], "Windows Media Foundation");
    let info = CameraSystem::get_platform_info(Platform::MacOS).unwrap();
    assert_eq!(info.backend, "AVFoundation");
    assert_eq!(info.features.len(), 5);
    assert_eq!(info.features[4], "Advanced color management");
    let info = CameraSystem::get_platform_info(Platform::Unknown).unwrap();
    assert_eq!(info.backend, "Unknown");
    assert_eq!(info.features, vec!["Limited support"]);
}

#[test]
fn system_test_reports_each_probe() {
    let probes = vec![
        ("0".to_string(), CameraProbe::Captured),
        ("1".to_string(), CameraProbe::Unavailable),
        (
            "2".to_string(),
            CameraProbe::InitFailed(CameraError::InitializationError("no device".to_string())),
        ),
        (
            "3".to_string(),
            CameraProbe::CaptureFailed(CameraError::CaptureError("timeout".to_string())),
        ),
    ];
    let result = CameraSystem::test_system(Platform::Linux, &probes).unwrap();
    assert_eq!(result.platform, Platform::Linux);
    assert_eq!(result.cameras_found, 4);
    assert_eq!(
        result.test_results,
        vec![
            ("0".to_string(), CameraTestResult::Success),
            ("1".to_string(), CameraTestResult::NotAvailable),
            (
                "2".to_string(),
                CameraTestResult::InitError("Camera initialization error: no device".to_string())
            ),
            (
                "3".to_string(),
                CameraTestResult::CaptureError("Capture error: timeout".to_string())
            ),
        ]
    );
    let empty = CameraSystem::test_system(Platform::Unknown, &Vec::new()).unwrap();
    assert_eq!(empty.cameras_found, 0);
    assert!(empty.test_results.is_empty());
}

#[test]
fn device_caps_are_the_three_common_ones() {
    assert_eq!(
        get_device_caps("/dev/video0").unwrap(),
        vec!["Video Capture", "Streaming", "Extended Controls"]
    );
}

#[test]
fn v4l2_devices_follow_the_presence_list() {
    let present = [true, false, true, false, false, false, false, false, false, true, true];
    assert_eq!(
        list_v4l2_devices(&present).unwrap(),
        vec!["/dev/video0", "/dev/video2", "/dev/video9"]
    );
    assert!(list_v4l2_devices(&[]).unwrap().is_empty());
    assert_eq!(list_v4l2_devices(&[false, true]).unwrap(), vec!["/dev/video1"]);
    assert_eq!(list_v4l2_devices(&[true; 10]).unwrap().len(), 10);
}

#[test]
fn new_frame_keeps_what_it_is_given() {
    let frame = CameraFrame::new(vec![1, 2, 3, 4, 5, 6], 2, 1, "cam".to_string());
    assert_eq!(frame.data, vec![1, 2, 3, 4, 5, 6]);
    assert_eq!(frame.width, 2);
    assert_eq!(frame.height, 1);
    assert_eq!(frame.device_id, "cam");
    assert_eq!(frame.format, "RGB8");
    assert_eq!(frame.size_bytes, 6);
    assert_eq!(frame.id.len(), 36);
    assert!(frame.timestamp > 0);
    let other = CameraFrame::new(vec![0; 6], 2, 1, "cam".to_string());
    assert_ne!(frame.id, other.id);
    let renamed = frame.with_format("YUYV".to_string());
    assert_eq!(renamed.format, "YUYV");
    assert_eq!(renamed.data, vec![1, 2, 3, 4, 5, 6]);
    assert_eq!(renamed.device_id, "cam");
}

#[test]
fn frame_validity_follows_the_buffer_length() {
    assert!(!CameraFrame::new(vec![], 640, 480, "test".to_string()).is_valid());
    assert!(!CameraFrame::new(vec![1, 2, 3], 0, 480, "test".to_string()).is_valid());
    assert!(!CameraFrame::new(vec![1, 2, 3], 640, 0, "test".to_string()).is_valid());
    assert!(!CameraFrame::new(vec![1, 2, 3], 2, 1, "test".to_string()).is_valid());
    assert!(!CameraFrame::new(vec![0; 7], 2, 1, "test".to_string()).is_valid());
    assert!(CameraFrame::new(vec![0; 6], 2, 1, "test".to_string()).is_valid());
    assert!(CameraFrame::new(vec![0; 6], 1, 2, "test".to_string()).is_valid());
    assert!(!CameraFrame::new(vec![0; 6], 65536, 65536, "test".to_string()).is_valid());
}

#[test]
fn aspect_ratio_is_in_millionths() {
    assert_eq!(
        CameraFrame::new(vec![], 1920, 1080, "t".to_string()).aspect_ratio(),
        1_777_777
    );
    assert_eq!(
        CameraFrame::new(vec![], 640, 480, "t".to_string()).aspect_ratio(),
        1_333_333
    );
    assert_eq!(
        CameraFrame::new(vec![], 100, 100, "t".to_string()).aspect_ratio(),
        1_000_000
    );
    assert_eq!(
        CameraFrame::new(vec![], 1, 3, "t".to_string()).aspect_ratio(),
        333_333
    );
}

#[test]
fn white_balance_presets_compare() {
    assert_eq!(WhiteBalance::Custom(5500), WhiteBalance::Custom(5500));
    assert_ne!(WhiteBalance::Custom(5500), WhiteBalance::Daylight);
    assert_ne!(WhiteBalance::Auto, WhiteBalance::Shade);
}

#[test]
fn white_balance_temperatures() {
    assert_eq!(white_balance_to_kelvin(&WhiteBalance::Auto), -1);
    assert_eq!(white_balance_to_kelvin(&WhiteBalance::Incandescent), 2700);
    assert_eq!(white_balance_to_kelvin(&WhiteBalance::Fluorescent), 4200);
    assert_eq!(white_balance_to_kelvin(&WhiteBalance::Daylight), 5500);
    assert_eq!(white_balance_to_kelvin(&WhiteBalance::Flash), 5500);
    assert_eq!(white_balance_to_kelvin(&WhiteBalance::Cloudy), 6500);
    assert_eq!(white_balance_to_kelvin(&WhiteBalance::Shade), 7500);
    assert_eq!(white_balance_to_kelvin(&WhiteBalance::Custom(3200)), 3200);
    assert_eq!(white_balance_to_kelvin(&WhiteBalance::Custom(0)), 0);
    assert_eq!(
        white_balance_to_kelvin(&WhiteBalance::Custom(i32::MAX as u32)),
        i32::MAX
    );
    assert_eq!(
        white_balance_to_kelvin(&WhiteBalance::Custom(i32::MAX as u32 + 1)),
        i32::MIN
    );
    assert_eq!(white_balance_to_kelvin(&WhiteBalance::Custom(u32::MAX)), -1);
    for temp in [0u32, 1, 6500, u32::MAX / 2, u32::MAX / 2 + 1, u32::MAX - 7] {
        assert_eq!(white_balance_to_kelvin(&WhiteBalance::Custom(temp)), temp as i32);
    }
}
