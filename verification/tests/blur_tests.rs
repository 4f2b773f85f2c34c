use crabcamera::quality::blur::{BlurDetector, BlurLevel, BlurMetrics, Window};
use crabcamera::types::CameraFrame;

fn micro(value: f64) -> u64 {
    (value * 1_000_000.0).round() as u64
}

fn create_test_frame(width: u32, height: u32) -> CameraFrame {
    let size = (width * height * 3) as usize;
    let mut data = vec![0u8; size];
    for i in (0..size).step_by(3) {
        data[i] = 128;
        data[i + 1] = 128;
        data[i + 2] = 128;
    }
    CameraFrame::new(data, width, height, "test".to_string())
}

fn checkerboard(width: u32, height: u32, square: u32, low: u8, high: u8) -> CameraFrame {
    let mut data = Vec::new();
    for y in 0..height {
        for x in 0..width {
            let value = if (x / square + y / square) % 2 == 0 { low } else { high };
            data.push(value);
            data.push(value);
            data.push(value);
        }
    }
    CameraFrame::new(data, width, height, "test".to_string())
}

#[test]
fn test_blur_level_from_variance() {
    assert_eq!(BlurLevel::from_variance(micro(1500.0)), BlurLevel::Sharp);
    assert_eq!(BlurLevel::from_variance(micro(800.0)), BlurLevel::Good);
    assert_eq!(BlurLevel::from_variance(micro(300.0)), BlurLevel::Moderate);
    assert_eq!(BlurLevel::from_variance(micro(100.0)), BlurLevel::Blurry);
    assert_eq!(BlurLevel::from_variance(micro(10.0)), BlurLevel::VeryBlurry);
}

#[test]
fn test_blur_level_quality_score() {
    assert_eq!(BlurLevel::Sharp.quality_score(), micro(1.0));
    assert_eq!(BlurLevel::Good.quality_score(), micro(0.8));
    assert_eq!(BlurLevel::Moderate.quality_score(), micro(0.6));
    assert_eq!(BlurLevel::Blurry.quality_score(), micro(0.3));
    assert_eq!(BlurLevel::VeryBlurry.quality_score(), micro(0.1));
}

#[test]
fn test_blur_detector_creation() {
    let detector = BlurDetector::default();
    assert_eq!(detector.threshold_variance, micro(200.0));
    assert_eq!(detector.threshold_gradient, micro(50.0));

    let custom_detector = BlurDetector::new(micro(300.0), micro(60.0));
    assert_eq!(custom_detector.threshold_variance, micro(300.0));
    assert_eq!(custom_detector.threshold_gradient, micro(60.0));
}

#[test]
fn test_rgb_to_grayscale() {
    let detector = BlurDetector::default();
    let rgb_data = vec![255, 0, 0, 0, 255, 0, 0, 0, 255];
    let grayscale = detector.rgb_to_grayscale(&rgb_data, 3, 1);

    assert_eq!(grayscale.len(), 3);
    assert!(grayscale[0] > 70 && grayscale[0] < 80);
    assert!(grayscale[1] > 140 && grayscale[1] < 150);
    assert!(grayscale[2] > 25 && grayscale[2] < 35);
}

#[test]
fn test_frame_analysis() {
    let detector = BlurDetector::default();
    let frame = create_test_frame(100, 100);

    let metrics = detector.analyze_frame(&frame);

    assert!(metrics.edge_density <= micro(1.0));
    assert!(metrics.quality_score <= micro(1.0));
    assert_eq!(metrics.variance, 0);
    assert_eq!(metrics.gradient_magnitude, 0);
}

#[test]
fn test_quality_threshold() {
    let detector = BlurDetector::new(micro(100.0), micro(30.0));

    let good_metrics = BlurMetrics {
        variance: micro(150.0),
        gradient_magnitude: micro(40.0),
        edge_density: micro(0.3),
        blur_level: BlurLevel::Good,
        quality_score: micro(0.8),
    };

    let bad_metrics = BlurMetrics {
        variance: micro(50.0),
        gradient_magnitude: micro(20.0),
        edge_density: micro(0.1),
        blur_level: BlurLevel::Blurry,
        quality_score: micro(0.3),
    };

    assert!(detector.is_acceptable_quality(&good_metrics));
    assert!(!detector.is_acceptable_quality(&bad_metrics));
}

#[test]
fn blur_level_breakpoints_are_strict() {
    assert_eq!(BlurLevel::from_variance(1_000_000_001), BlurLevel::Sharp);
    assert_eq!(BlurLevel::from_variance(1_000_000_000), BlurLevel::Good);
    assert_eq!(BlurLevel::from_variance(500_000_001), BlurLevel::Good);
    assert_eq!(BlurLevel::from_variance(500_000_000), BlurLevel::Moderate);
    assert_eq!(BlurLevel::from_variance(200_000_001), BlurLevel::Moderate);
    assert_eq!(BlurLevel::from_variance(200_000_000), BlurLevel::Blurry);
    assert_eq!(BlurLevel::from_variance(50_000_001), BlurLevel::Blurry);
    assert_eq!(BlurLevel::from_variance(50_000_000), BlurLevel::VeryBlurry);
    assert_eq!(BlurLevel::from_variance(0), BlurLevel::VeryBlurry);
    assert_eq!(BlurLevel::from_variance(u64::MAX), BlurLevel::Sharp);
}

#[test]
fn grayscale_uses_the_bt601_weights() {
    let detector = BlurDetector::default();
    let rgb = vec![255, 0, 0, 0, 255, 0, 0, 0, 255, 255, 255, 255, 10, 20, 30, 0, 0, 0];
    assert_eq!(
        detector.rgb_to_grayscale(&rgb, 6, 1),
        vec![76, 149, 29, 255, 18, 0]
    );
    assert!(detector.rgb_to_grayscale(&[], 0, 0).is_empty());
}

#[test]
fn window_reads_the_nine_neighbours() {
    let gray: Vec<u8> = vec![1, 2, 3, 4, 5, 6, 7, 8, 9, 10, 11, 12];
    let window = Window::read(&gray, 4, 2, 1);
    assert_eq!(
        window,
        Window { nw: 2, n: 3, ne: 4, w: 6, c: 7, e: 8, sw: 10, s: 11, se: 12 }
    );
    assert_eq!(window.laplacian(), 4 * 7 - 3 - 11 - 6 - 8);
    assert_eq!(window.sobel(), (8, 32));
    assert_eq!(window.gradient_magnitude(), 32_984_845);
    assert!(!window.is_edge(5));
    assert!(window.is_edge(4));
}

#[test]
fn kernels_on_an_isolated_bright_pixel() {
    let window = Window { nw: 0, n: 0, ne: 0, w: 0, c: 255, e: 0, sw: 0, s: 0, se: 0 };
    assert_eq!(window.laplacian(), 1020);
    assert_eq!(window.sobel(), (0, 0));
    assert_eq!(window.gradient_magnitude(), 0);
    assert!(window.is_edge(50));
    assert!(window.is_edge(254));
    assert!(!window.is_edge(255));
    let edge = Window { nw: 0, n: 0, ne: 255, w: 0, c: 0, e: 255, sw: 0, s: 0, se: 255 };
    assert_eq!(edge.laplacian(), -255);
    assert_eq!(edge.sobel(), (1020, 0));
    assert_eq!(edge.gradient_magnitude(), 1_020_000_000);
}

#[test]
fn frames_smaller_than_three_by_three_have_no_interior() {
    let detector = BlurDetector::default();
    for (width, height) in [(1u32, 1u32), (2, 2), (2, 50), (50, 2), (1, 9)] {
        let frame = checkerboard(width, height, 1, 0, 255);
        let metrics = detector.analyze_frame(&frame);
        assert_eq!(metrics.variance, 0);
        assert_eq!(metrics.gradient_magnitude, 0);
        assert_eq!(metrics.edge_density, 0);
        assert_eq!(metrics.blur_level, BlurLevel::VeryBlurry);
        assert_eq!(metrics.quality_score, 100_000);
    }
}

#[test]
fn flat_frame_has_variance_zero_and_is_very_blurry() {
    let detector = BlurDetector::default();
    for value in [0u8, 20, 128, 240, 255] {
        let frame = CameraFrame::new(vec![value; 40 * 30 * 3], 40, 30, "test".to_string());
        let metrics = detector.analyze_frame(&frame);
        assert_eq!(metrics.variance, 0);
        assert_eq!(metrics.blur_level, BlurLevel::VeryBlurry);
        assert_eq!(metrics.gradient_magnitude, 0);
        assert_eq!(metrics.edge_density, 0);
    }
    let mut data = Vec::new();
    for _ in 0..(12 * 9) {
        data.extend_from_slice(&[10, 200, 30]);
    }
    let coloured = CameraFrame::new(data, 12, 9, "test".to_string());
    let metrics = detector.analyze_frame(&coloured);
    assert_eq!(metrics.variance, 0);
    assert_eq!(metrics.blur_level, BlurLevel::VeryBlurry);
}

#[test]
fn checkerboard_is_sharper_than_flat() {
    let detector = BlurDetector::default();
    let flat = detector.analyze_frame(&create_test_frame(8, 6));
    let fine = detector.analyze_frame(&checkerboard(8, 6, 1, 0, 255));
    assert_eq!(fine.variance, 1_040_400_000_000);
    assert!(fine.variance > flat.variance);
    assert_eq!(fine.edge_density, 1_000_000);
    assert_eq!(fine.blur_level, BlurLevel::Sharp);
    assert_eq!(fine.quality_score, 1_000_000);

    let flat = detector.analyze_frame(&create_test_frame(16, 12));
    let coarse = detector.analyze_frame(&checkerboard(16, 12, 2, 0, 255));
    assert!(coarse.variance > flat.variance);
    assert!(coarse.gradient_magnitude > flat.gradient_magnitude);
    assert_eq!(coarse.variance, 260_100_000_000);
    assert_eq!(coarse.gradient_magnitude, 721_248_916);
}

#[test]
fn metrics_of_a_striped_frame_are_exact() {
    let detector = BlurDetector::default();
    let mut data = Vec::new();
    for _y in 0..480u32 {
        for x in 0..640u32 {
            let value: u8 = if (x / 4) % 2 == 0 { 40 } else { 216 };
            data.extend_from_slice(&[value, value, value]);
        }
    }
    let frame = CameraFrame::new(data, 640, 480, "test".to_string());
    let metrics = detector.analyze_frame(&frame);
    assert_eq!(
        metrics,
        BlurMetrics {
            variance: 15_439_448_276,
            gradient_magnitude: 350_896_551,
            edge_density: 498_432,
            blur_level: BlurLevel::Sharp,
            quality_score: 1_000_000,
        }
    );
    assert!(detector.is_acceptable_quality(&metrics));
}

#[test]
fn component_functions_agree_with_the_analysis() {
    let detector = BlurDetector::default();
    let frame = checkerboard(20, 10, 3, 30, 200);
    let gray = detector.rgb_to_grayscale(&frame.data, 20, 10);
    let metrics = detector.analyze_frame(&frame);
    assert_eq!(detector.calculate_laplacian_variance(&gray, 20, 10), metrics.variance);
    assert_eq!(detector.calculate_sobel_gradient(&gray, 20, 10), metrics.gradient_magnitude);
    assert_eq!(detector.calculate_edge_density(&gray, 20, 10), metrics.edge_density);
    assert_eq!(BlurLevel::from_variance(metrics.variance), metrics.blur_level);
    assert_eq!(metrics.blur_level.quality_score(), metrics.quality_score);
}

#[test]
fn acceptance_needs_both_thresholds_exceeded() {
    let detector = BlurDetector::new(100, 30);
    let metrics = |variance: u64, gradient_magnitude: u64| BlurMetrics {
        variance,
        gradient_magnitude,
        edge_density: 0,
        blur_level: BlurLevel::Good,
        quality_score: 800_000,
    };
    assert!(detector.is_acceptable_quality(&metrics(101, 31)));
    assert!(!detector.is_acceptable_quality(&metrics(100, 31)));
    assert!(!detector.is_acceptable_quality(&metrics(101, 30)));
    assert!(!detector.is_acceptable_quality(&metrics(0, 0)));
}
