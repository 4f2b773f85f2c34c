use crabcamera::errors::QualityError;
use crabcamera::quality::blur::{BlurLevel, BlurMetrics};
use crabcamera::quality::exposure::{ExposureLevel, ExposureMetrics};
use crabcamera::quality::validator::{
    ColorDistribution, QualityGrade, QualityReport, QualityScore, QualityValidator,
    TechnicalDetails, ValidationConfig, ADVICE_BLUR, ADVICE_COLOR, ADVICE_NOISE, ADVICE_NONE,
    ADVICE_OVEREXPOSED, ADVICE_RESOLUTION, ADVICE_UNDEREXPOSED,
};
use crabcamera::types::CameraFrame;

fn micro(value: f64) -> u64 {
    (value * 1_000_000.0).round() as u64
}

fn create_test_frame(width: u32, height: u32, brightness: u8) -> CameraFrame {
    let size = (width * height * 3) as usize;
    let data = vec![brightness; size];
    CameraFrame::new(data, width, height, "test".to_string())
}

fn striped_frame(width: u32, height: u32, period: u32, low: u8, high: u8) -> CameraFrame {
    let mut data = Vec::new();
    for _y in 0..height {
        for x in 0..width {
            let value = if (x / period) % 2 == 0 { low } else { high };
            data.extend_from_slice(&[value, value, value]);
        }
    }
    CameraFrame::new(data, width, height, "test".to_string())
}

fn solid_frame(width: u32, height: u32, colour: [u8; 3]) -> CameraFrame {
    let mut data = Vec::new();
    for _ in 0..(width * height) {
        data.extend_from_slice(&colour);
    }
    CameraFrame::new(data, width, height, "test".to_string())
}

fn technical(resolution: (u32, u32), noise: u64, balance: u64) -> TechnicalDetails {
    TechnicalDetails {
        resolution,
        pixel_count: resolution.0 * resolution.1,
        aspect_ratio: resolution.0 as u64 * 1_000_000 / resolution.1 as u64,
        noise_estimate: noise,
        color_distribution: ColorDistribution {
            red_mean: 0,
            green_mean: 0,
            blue_mean: 0,
            saturation_mean: 0,
            color_balance_score: balance,
        },
    }
}

fn blur_metrics(blur_level: BlurLevel) -> BlurMetrics {
    BlurMetrics {
        variance: 0,
        gradient_magnitude: 0,
        edge_density: 0,
        blur_level,
        quality_score: blur_level.quality_score(),
    }
}

fn exposure_metrics(exposure_level: ExposureLevel) -> ExposureMetrics {
    ExposureMetrics {
        mean_brightness: 0,
        brightness_std: 0,
        histogram: vec![0; 256],
        dark_pixel_ratio: 0,
        bright_pixel_ratio: 0,
        dynamic_range: 0,
        exposure_level,
        quality_score: exposure_level.quality_score(),
    }
}

#[test]
fn test_quality_score_creation() {
    let score = QualityScore::new(micro(0.8), micro(0.9), micro(0.7), micro(0.6));

    assert!(score.overall > micro(0.0) && score.overall <= micro(1.0));
    assert_eq!(score.blur, micro(0.8));
    assert_eq!(score.exposure, micro(0.9));
    assert_eq!(score.composition, micro(0.7));
    assert_eq!(score.technical, micro(0.6));
}

#[test]
fn test_quality_grade() {
    let excellent_score = QualityScore::new(micro(1.0), micro(1.0), micro(1.0), micro(1.0));
    assert_eq!(excellent_score.get_grade(), QualityGrade::Excellent);

    let poor_score = QualityScore::new(micro(0.3), micro(0.4), micro(0.2), micro(0.5));
    assert!(matches!(
        poor_score.get_grade(),
        QualityGrade::Poor | QualityGrade::VeryPoor
    ));
}

#[test]
fn test_quality_validator_creation() {
    let validator = QualityValidator::default();
    assert_eq!(validator.config.overall_threshold, micro(0.7));

    let custom_config = ValidationConfig {
        blur_threshold: micro(0.8),
        exposure_threshold: micro(0.8),
        overall_threshold: micro(0.9),
        min_resolution: (1920, 1080),
        max_noise_level: micro(0.2),
    };

    let custom_validator = QualityValidator::new(custom_config);
    assert_eq!(custom_validator.config.overall_threshold, micro(0.9));
}

#[test]
fn test_frame_validation() {
    let validator = QualityValidator::default();
    let frame = create_test_frame(1280, 720, 128);

    let report = validator.validate_frame(&frame).unwrap();

    assert!(report.score.overall <= micro(1.0));
    assert!(report.technical_details.pixel_count > 0);
    assert!(!report.recommendations.is_empty());
}

#[test]
fn test_noise_estimation() {
    let validator = QualityValidator::default();
    let noisy_data = vec![0, 255, 0, 255, 0, 255, 0, 255, 0];
    let noise_level = validator.estimate_noise_level(&noisy_data);

    assert!(noise_level > micro(0.0) && noise_level <= micro(1.0));
}

#[test]
fn test_color_distribution_analysis() {
    let validator = QualityValidator::default();
    let rgb_data = vec![255, 0, 0, 0, 255, 0, 0, 0, 255];
    let color_dist = validator.analyze_color_distribution(&rgb_data);

    assert!(color_dist.red_mean > micro(0.0));
    assert!(color_dist.green_mean > micro(0.0));
    assert!(color_dist.blue_mean > micro(0.0));
    assert!(color_dist.color_balance_score <= micro(1.0));
}

#[test]
fn test_low_resolution_rejection() {
    let mut config = ValidationConfig::default();
    config.min_resolution = (1920, 1080);

    let validator = QualityValidator::new(config);
    let low_res_frame = create_test_frame(640, 480, 128);

    let report = validator.validate_frame(&low_res_frame).unwrap();
    assert!(!report.is_acceptable);

    let recommendations_text = report.recommendations.join(" ");
    assert!(recommendations_text.contains("resolution"));
}

#[test]
fn default_config_values() {
    let config = ValidationConfig::default();
    assert_eq!(
        config,
        ValidationConfig {
            blur_threshold: 600_000,
            exposure_threshold: 600_000,
            overall_threshold: 700_000,
            min_resolution: (640, 480),
            max_noise_level: 300_000,
        }
    );
    assert!(config.is_valid());
    assert_eq!(QualityValidator::default().get_config(), config);
}

#[test]
fn overall_score_is_the_weighted_sum() {
    assert_eq!(QualityScore::new(800_000, 900_000, 700_000, 600_000).overall, 790_000);
    assert_eq!(QualityScore::new(0, 0, 0, 0).overall, 0);
    assert_eq!(QualityScore::new(1_000_000, 0, 0, 0).overall, 350_000);
    assert_eq!(QualityScore::new(0, 1_000_000, 0, 0).overall, 350_000);
    assert_eq!(QualityScore::new(0, 0, 1_000_000, 0).overall, 150_000);
    assert_eq!(QualityScore::new(0, 0, 0, 1_000_000).overall, 150_000);
    assert_eq!(QualityScore::new(1, 1, 1, 1).overall, 1);
    assert_eq!(QualityScore::new(1, 1, 0, 0).overall, 0);
    assert_eq!(QualityScore::new(300_000, 400_000, 200_000, 500_000).overall, 350_000);
    assert_eq!(
        QualityScore::new(1_000_000, 1_000_000, 1_000_000, 1_000_000).overall,
        1_000_000
    );
    assert_eq!(QualityScore::new(5_000_000, 0, 0, 0).overall, 1_000_000);
    assert_eq!(
        QualityScore::new(u64::MAX, u64::MAX, u64::MAX, u64::MAX).overall,
        1_000_000
    );
}

#[test]
fn grade_bands_follow_the_table() {
    let grade = |overall: u64| {
        QualityScore { overall, blur: 0, exposure: 0, composition: 0, technical: 0 }.get_grade()
    };
    assert_eq!(grade(1_000_000), QualityGrade::Excellent);
    assert_eq!(grade(900_000), QualityGrade::Excellent);
    assert_eq!(grade(899_999), QualityGrade::VeryGood);
    assert_eq!(grade(800_000), QualityGrade::VeryGood);
    assert_eq!(grade(799_999), QualityGrade::Good);
    assert_eq!(grade(700_000), QualityGrade::Good);
    assert_eq!(grade(699_999), QualityGrade::Fair);
    assert_eq!(grade(600_000), QualityGrade::Fair);
    assert_eq!(grade(599_999), QualityGrade::Poor);
    assert_eq!(grade(400_000), QualityGrade::Poor);
    assert_eq!(grade(399_999), QualityGrade::VeryPoor);
    assert_eq!(grade(0), QualityGrade::VeryPoor);
}

#[test]
fn grade_never_falls_when_the_score_rises() {
    let rank = |grade: QualityGrade| match grade {
        QualityGrade::Excellent => 5,
        QualityGrade::VeryGood => 4,
        QualityGrade::Good => 3,
        QualityGrade::Fair => 2,
        QualityGrade::Poor => 1,
        QualityGrade::VeryPoor => 0,
    };
    let mut previous = 0;
    let mut overall = 0u64;
    while overall <= 1_000_000 {
        let score = QualityScore { overall, blur: 0, exposure: 0, composition: 0, technical: 0 };
        let current = rank(score.get_grade());
        assert!(current >= previous);
        previous = current;
        overall += 1_000;
    }
    assert_eq!(previous, 5);
}

#[test]
fn grade_names() {
    assert_eq!(QualityGrade::Excellent.as_str(), "Excellent");
    assert_eq!(QualityGrade::VeryGood.as_str(), "Very Good");
    assert_eq!(QualityGrade::Good.as_str(), "Good");
    assert_eq!(QualityGrade::Fair.as_str(), "Fair");
    assert_eq!(QualityGrade::Poor.as_str(), "Poor");
    assert_eq!(QualityGrade::VeryPoor.as_str(), "Very Poor");
}

#[test]
fn meets_threshold_is_inclusive() {
    let score = QualityScore::new(800_000, 900_000, 700_000, 600_000);
    assert!(score.meets_threshold(790_000));
    assert!(score.meets_threshold(0));
    assert!(!score.meets_threshold(790_001));
}

#[test]
fn noise_estimate_is_exact() {
    let validator = QualityValidator::default();
    assert_eq!(validator.estimate_noise_level(&[]), 1_000_000);
    assert_eq!(validator.estimate_noise_level(&[1, 2, 3, 4, 5, 6, 7, 8]), 1_000_000);
    assert_eq!(validator.estimate_noise_level(&[9; 9]), 0);
    assert_eq!(
        validator.estimate_noise_level(&[10, 10, 10, 12, 12, 12, 14, 14, 14]),
        10_457
    );
    assert_eq!(
        validator.estimate_noise_level(&[10, 10, 10, 40, 40, 40, 70, 70, 70]),
        1_000_000
    );
    let mut data = vec![100u8; 300 + 9];
    data[300] = 104;
    data[301] = 104;
    data[302] = 104;
    assert_eq!(validator.estimate_noise_level(&data), 6_971);
    data.truncate(300 + 8);
    assert_eq!(validator.estimate_noise_level(&data), 0);
}

#[test]
fn color_distribution_is_exact() {
    let validator = QualityValidator::default();
    assert_eq!(
        validator.analyze_color_distribution(&[]),
        ColorDistribution {
            red_mean: 0,
            green_mean: 0,
            blue_mean: 0,
            saturation_mean: 0,
            color_balance_score: 0,
        }
    );
    assert_eq!(
        validator.analyze_color_distribution(&[255, 0, 0, 0, 255, 0, 0, 0, 255]),
        ColorDistribution {
            red_mean: 333_333,
            green_mean: 333_333,
            blue_mean: 333_333,
            saturation_mean: 1_000_000,
            color_balance_score: 1_000_000,
        }
    );
    assert_eq!(
        validator.analyze_color_distribution(&[255, 0, 0, 255, 0, 0]),
        ColorDistribution {
            red_mean: 1_000_000,
            green_mean: 0,
            blue_mean: 0,
            saturation_mean: 1_000_000,
            color_balance_score: 528_596,
        }
    );
    assert_eq!(
        validator.analyze_color_distribution(&[200, 100, 50, 200, 100, 50, 200, 100, 50]),
        ColorDistribution {
            red_mean: 784_313,
            green_mean: 392_156,
            blue_mean: 196_078,
            saturation_mean: 750_000,
            color_balance_score: 755_448,
        }
    );
    assert_eq!(
        validator.analyze_color_distribution(&[0, 0, 0]).saturation_mean,
        0
    );
}

#[test]
fn composition_blends_resolution_aspect_and_colour() {
    let validator = QualityValidator::default();
    let frame = create_test_frame(1, 1, 0);
    let score = |resolution: (u32, u32), balance: u64| {
        validator.analyze_composition(&frame, &technical(resolution, 0, balance))
    };
    assert_eq!(score((1920, 1080), 1_000_000), 1_000_000);
    assert_eq!(score((640, 480), 1_000_000), 970_000);
    assert_eq!(score((1440, 960), 1_000_000), 940_000);
    assert_eq!(score((1000, 1000), 1_000_000), 880_000);
    assert_eq!(score((50, 50), 1_000_000), 720_000);
    assert_eq!(score((8, 6), 1_000_000), 810_000);
    assert_eq!(score((640, 480), 528_596), 828_578);
    assert_eq!(score((640, 480), 0), 670_000);
    assert_eq!(score((639, 480), 1_000_000), 810_000);
    assert_eq!(score((640, 479), 1_000_000), 810_000);
    assert_eq!(score((1920, 1080), u64::MAX), 1_000_000);
}

#[test]
fn aspect_ratio_bands_are_a_tenth_wide() {
    let validator = QualityValidator::default();
    let frame = create_test_frame(1, 1, 0);
    let aspect = |width: u32, height: u32| {
        let blend = validator.analyze_composition(&frame, &technical((width, height), 0, 0));
        (blend * 1000 - 400 * 1_000_000) / 300
    };
    assert_eq!(aspect(1677, 1000), 600_000);
    assert_eq!(aspect(1678, 1000), 1_000_000);
    assert_eq!(aspect(1877, 1000), 1_000_000);
    assert_eq!(aspect(1878, 1000), 600_000);
    assert_eq!(aspect(1234, 1000), 900_000);
    assert_eq!(aspect(1433, 1000), 900_000);
    assert_eq!(aspect(1434, 1000), 800_000);
    assert_eq!(aspect(1599, 1000), 800_000);
    assert_eq!(aspect(1600, 1000), 600_000);
    assert_eq!(aspect(1401, 1000), 900_000);
}

#[test]
fn recommendations_follow_the_rules_in_order() {
    let validator = QualityValidator::default();
    let all = validator.generate_recommendations(
        &blur_metrics(BlurLevel::VeryBlurry),
        &exposure_metrics(ExposureLevel::Underexposed),
        &technical((320, 240), 300_001, 599_999),
    );
    assert_eq!(
        all,
        vec![
            "Image is blurry. Try stabilizing the camera or using faster shutter speed.",
            "Image is underexposed. Increase exposure time, ISO, or add lighting.",
            "High noise detected. Consider lowering ISO or improving lighting conditions.",
            "Low resolution detected. Consider using higher resolution settings.",
            "Poor color balance detected. Check white balance settings or lighting conditions.",
        ]
    );
    assert_eq!(
        all,
        vec![ADVICE_BLUR, ADVICE_UNDEREXPOSED, ADVICE_NOISE, ADVICE_RESOLUTION, ADVICE_COLOR]
    );
    let none = validator.generate_recommendations(
        &blur_metrics(BlurLevel::Moderate),
        &exposure_metrics(ExposureLevel::SlightlyDark),
        &technical((640, 480), 300_000, 600_000),
    );
    assert_eq!(none, vec!["Image quality is good. No specific improvements needed."]);
    assert_eq!(none, vec![ADVICE_NONE]);
    let over = validator.generate_recommendations(
        &blur_metrics(BlurLevel::Blurry),
        &exposure_metrics(ExposureLevel::Overexposed),
        &technical((640, 480), 0, 1_000_000),
    );
    assert_eq!(
        over,
        vec![
            ADVICE_BLUR,
            "Image is overexposed. Decrease exposure time, lower ISO, or reduce lighting.",
        ]
    );
    assert_eq!(over[1], ADVICE_OVEREXPOSED);
    let narrow = validator.generate_recommendations(
        &blur_metrics(BlurLevel::Sharp),
        &exposure_metrics(ExposureLevel::WellExposed),
        &technical((640, 479), 0, 1_000_000),
    );
    assert_eq!(narrow, vec![ADVICE_RESOLUTION]);
}

#[test]
fn acceptance_needs_all_five_conditions() {
    let validator = QualityValidator::default();
    let good = QualityScore {
        overall: 700_000,
        blur: 600_000,
        exposure: 600_000,
        composition: 0,
        technical: 0,
    };
    let details = technical((640, 480), 300_000, 0);
    assert!(validator.is_frame_acceptable(&good, &details));
    assert!(!validator.is_frame_acceptable(&QualityScore { overall: 699_999, ..good }, &details));
    assert!(!validator.is_frame_acceptable(&QualityScore { blur: 599_999, ..good }, &details));
    assert!(!validator.is_frame_acceptable(&QualityScore { exposure: 599_999, ..good }, &details));
    assert!(!validator.is_frame_acceptable(&good, &technical((639, 480), 300_000, 0)));
    assert!(!validator.is_frame_acceptable(&good, &technical((640, 479), 300_000, 0)));
    assert!(!validator.is_frame_acceptable(&good, &technical((640, 480), 300_001, 0)));
    let high = QualityScore {
        overall: 1_000_000,
        blur: 1_000_000,
        exposure: 1_000_000,
        composition: 1_000_000,
        technical: 1_000_000,
    };
    assert!(!validator.is_frame_acceptable(&high, &technical((320, 240), 0, 1_000_000)));
}

#[test]
fn invalid_frames_are_rejected() {
    let validator = QualityValidator::default();
    let frames = vec![
        CameraFrame::new(vec![], 640, 480, "test".to_string()),
        CameraFrame::new(vec![], 0, 0, "test".to_string()),
        CameraFrame::new(vec![1, 2, 3], 0, 480, "test".to_string()),
        CameraFrame::new(vec![1, 2, 3], 640, 0, "test".to_string()),
        CameraFrame::new(vec![0; 11], 2, 2, "test".to_string()),
        CameraFrame::new(vec![0; 13], 2, 2, "test".to_string()),
    ];
    for frame in frames {
        assert_eq!(validator.validate_frame(&frame), Err(QualityError::InvalidFrame));
    }
    let smallest = CameraFrame::new(vec![0; 3], 1, 1, "test".to_string());
    assert!(validator.validate_frame(&smallest).is_ok());
}

#[test]
fn report_of_a_flat_frame_is_exact() {
    let validator = QualityValidator::default();
    let report = validator.validate_frame(&create_test_frame(640, 480, 128)).unwrap();
    assert_eq!(
        report.score,
        QualityScore {
            overall: 455_250,
            blur: 100_000,
            exposure: 785_000,
            composition: 970_000,
            technical: 0,
        }
    );
    assert_eq!(report.grade, QualityGrade::Poor);
    assert_eq!(report.blur_metrics.blur_level, BlurLevel::VeryBlurry);
    assert_eq!(report.blur_metrics.variance, 0);
    assert_eq!(report.exposure_metrics.exposure_level, ExposureLevel::WellExposed);
    assert_eq!(report.exposure_metrics.mean_brightness, 501_960);
    assert_eq!(report.exposure_metrics.histogram[128], 640 * 480);
    assert_eq!(
        report.technical_details,
        TechnicalDetails {
            resolution: (640, 480),
            pixel_count: 307_200,
            aspect_ratio: 1_333_333,
            noise_estimate: 0,
            color_distribution: ColorDistribution {
                red_mean: 501_960,
                green_mean: 501_960,
                blue_mean: 501_960,
                saturation_mean: 0,
                color_balance_score: 1_000_000,
            },
        }
    );
    assert_eq!(report.recommendations, vec![ADVICE_BLUR]);
    assert!(!report.is_acceptable);
}

#[test]
fn report_of_a_striped_frame_is_exact() {
    let validator = QualityValidator::default();
    let report = validator.validate_frame(&striped_frame(640, 480, 4, 40, 216)).unwrap();
    assert_eq!(
        report.score,
        QualityScore {
            overall: 835_000,
            blur: 1_000_000,
            exposure: 970_000,
            composition: 970_000,
            technical: 0,
        }
    );
    assert_eq!(report.grade, QualityGrade::VeryGood);
    assert_eq!(report.exposure_metrics.brightness_std, 345_098);
    assert_eq!(report.exposure_metrics.dynamic_range, 690_196);
    assert_eq!(report.recommendations, vec![ADVICE_NONE]);
    assert!(report.is_acceptable);

    let wide = validator.validate_frame(&striped_frame(720, 480, 4, 40, 216)).unwrap();
    assert_eq!(wide.score.composition, 940_000);
    assert_eq!(wide.score.overall, 830_500);
    assert_eq!(wide.technical_details.aspect_ratio, 1_500_000);
    assert_eq!(wide.blur_metrics.variance, 15_444_857_939);
}

#[test]
fn reports_of_coloured_and_noisy_frames_are_exact() {
    let validator = QualityValidator::default();
    let red = validator.validate_frame(&solid_frame(640, 480, [255, 0, 0])).unwrap();
    assert_eq!(red.score.composition, 828_578);
    assert_eq!(red.score.exposure, 665_000);
    assert_eq!(red.score.overall, 392_036);
    assert_eq!(red.grade, QualityGrade::VeryPoor);
    assert_eq!(red.exposure_metrics.exposure_level, ExposureLevel::SlightlyDark);
    assert_eq!(red.recommendations, vec![ADVICE_BLUR, ADVICE_COLOR]);

    let mut data = Vec::new();
    for _y in 0..480u32 {
        for x in 0..640u32 {
            let value: u8 = if x % 2 == 0 { 100 } else { 116 };
            data.extend_from_slice(&[value, value, value]);
        }
    }
    let noisy = validator
        .validate_frame(&CameraFrame::new(data, 640, 480, "test".to_string()))
        .unwrap();
    assert_eq!(noisy.technical_details.noise_estimate, 223_093);
    assert_eq!(noisy.score.technical, 223_093);
    assert_eq!(noisy.blur_metrics.variance, 1_024_000_000);
    assert_eq!(noisy.score.overall, 803_713);
    assert!(noisy.is_acceptable);
}

#[test]
fn uniform_fill_levels_and_acceptance() {
    let validator = QualityValidator::default();
    let dark = validator.validate_frame(&create_test_frame(50, 50, 20)).unwrap();
    assert_eq!(dark.exposure_metrics.exposure_level, ExposureLevel::Underexposed);
    assert_eq!(dark.score.overall, 270_750);
    assert_eq!(dark.recommendations, vec![ADVICE_BLUR, ADVICE_UNDEREXPOSED, ADVICE_RESOLUTION]);
    assert!(!dark.is_acceptable);
    let mid = validator.validate_frame(&create_test_frame(50, 50, 128)).unwrap();
    assert_eq!(mid.exposure_metrics.exposure_level, ExposureLevel::WellExposed);
    assert_eq!(mid.score.overall, 417_750);
    assert!(!mid.is_acceptable);
    let bright = validator.validate_frame(&create_test_frame(50, 50, 240)).unwrap();
    assert_eq!(bright.exposure_metrics.exposure_level, ExposureLevel::Overexposed);
    assert_eq!(bright.score.overall, 270_750);
    assert_eq!(bright.recommendations, vec![ADVICE_BLUR, ADVICE_OVEREXPOSED, ADVICE_RESOLUTION]);
    assert!(!bright.is_acceptable);
}

#[test]
fn every_score_lies_between_zero_and_one() {
    let validator = QualityValidator::default();
    let frames = vec![
        create_test_frame(1, 1, 255),
        create_test_frame(3, 3, 0),
        striped_frame(64, 48, 1, 0, 255),
        striped_frame(64, 48, 3, 0, 255),
        solid_frame(17, 5, [0, 255, 0]),
        solid_frame(5, 17, [255, 255, 0]),
    ];
    for frame in frames {
        let report = validator.validate_frame(&frame).unwrap();
        for value in [
            report.score.overall,
            report.score.blur,
            report.score.exposure,
            report.score.composition,
            report.score.technical,
        ] {
            assert!(value <= 1_000_000);
        }
        assert_eq!(report.grade, report.score.get_grade());
        let total: u64 = report.exposure_metrics.histogram.iter().map(|&c| c as u64).sum();
        assert_eq!(total, frame.width as u64 * frame.height as u64);
    }
}

#[test]
fn validation_is_idempotent() {
    let validator = QualityValidator::default();
    for frame in [
        striped_frame(64, 48, 3, 10, 250),
        solid_frame(20, 20, [1, 2, 3]),
        create_test_frame(640, 480, 77),
    ] {
        let first: QualityReport = validator.validate_frame(&frame).unwrap();
        let second: QualityReport = validator.validate_frame(&frame).unwrap();
        assert_eq!(first, second);
    }
}

#[test]
fn raising_the_minimum_resolution_rejects_the_frame() {
    let frame = striped_frame(640, 480, 4, 40, 216);
    let validator = QualityValidator::default();
    let before = validator.validate_frame(&frame).unwrap();
    assert!(before.is_acceptable);

    let mut config = ValidationConfig::default();
    config.min_resolution = (641, 480);
    let raised = QualityValidator::new(config);
    let after = raised.validate_frame(&frame).unwrap();
    assert!(!after.is_acceptable);
    assert_eq!(after.blur_metrics, before.blur_metrics);
    assert_eq!(after.exposure_metrics, before.exposure_metrics);
    assert_eq!(after.technical_details, before.technical_details);
    assert_eq!(after.score.blur, before.score.blur);
    assert_eq!(after.score.exposure, before.score.exposure);
    assert_eq!(after.score.technical, before.score.technical);
    assert_eq!(after.score.composition, 810_000);
    assert_eq!(after.score.overall, 811_000);
    assert_eq!(after.recommendations, vec![ADVICE_RESOLUTION]);
}

#[test]
fn update_config_rejects_malformed_thresholds() {
    let mut validator = QualityValidator::default();
    let good = ValidationConfig {
        blur_threshold: 800_000,
        exposure_threshold: 800_000,
        overall_threshold: 900_000,
        min_resolution: (1920, 1080),
        max_noise_level: 200_000,
    };
    assert_eq!(validator.update_config(good), Ok(()));
    assert_eq!(validator.get_config(), good);

    for bad in [
        ValidationConfig { blur_threshold: 1_000_001, ..good },
        ValidationConfig { exposure_threshold: 1_000_001, ..good },
        ValidationConfig { overall_threshold: 2_000_000, ..good },
        ValidationConfig { max_noise_level: u64::MAX, ..good },
    ] {
        assert!(!bad.is_valid());
        assert_eq!(validator.update_config(bad), Err(QualityError::InvalidConfig));
        assert_eq!(validator.get_config(), good);
    }
    let edge = ValidationConfig {
        blur_threshold: 1_000_000,
        exposure_threshold: 0,
        overall_threshold: 1_000_000,
        min_resolution: (0, 0),
        max_noise_level: 1_000_000,
    };
    assert_eq!(validator.update_config(edge), Ok(()));
    assert_eq!(validator.get_config(), edge);
}

#[test]
fn a_new_configuration_applies_to_later_validations_only() {
    let frame = striped_frame(640, 480, 4, 40, 216);
    let mut validator = QualityValidator::default();
    let before = validator.validate_frame(&frame).unwrap();
    let mut config = ValidationConfig::default();
    config.overall_threshold = 900_000;
    validator.update_config(config).unwrap();
    let after = validator.validate_frame(&frame).unwrap();
    assert!(before.is_acceptable);
    assert!(!after.is_acceptable);
    assert_eq!(before.score, after.score);
}
