//! The quality validator: technical analysis, the weighted overall score,
//! the grade, the recommendations and the acceptance test.

use crate::errors::QualityError;
use crate::fixed::{isqrt, lemma_div_upper_bound, sqrt_floor, sum_to};
use crate::quality::blur::{BlurDetector, BlurLevel, BlurMetrics};
use crate::quality::exposure::{
    histogram_total, ExposureAnalyzer, ExposureLevel, ExposureMetrics, ExposureMetricsView,
};
use crate::text::{push_line, texts};
use crate::types::CameraFrame;
use vstd::prelude::*;

verus! {

/// Overall quality assessment score. Every field is in millionths.
#[derive(Debug, Clone, Copy, PartialEq, Eq, Structural)]
pub struct QualityScore {
    pub overall: u64,
    pub blur: u64,
    pub exposure: u64,
    pub composition: u64,
    pub technical: u64,
}

/// Quality grade enumeration, best first.
#[derive(Debug, Clone, Copy, PartialEq, Eq, Structural)]
pub enum QualityGrade {
    Excellent,
    VeryGood,
    Good,
    Fair,
    Poor,
    VeryPoor,
}

impl QualityGrade {
    /// The grade of an overall score in millionths: excellent from 0.9,
    /// very good from 0.8, good from 0.7, fair from 0.6, poor from 0.4.
    pub open spec fn spec_from_score(overall: u64) -> QualityGrade {
        if overall >= 900_000 {
            QualityGrade::Excellent
        } else if overall >= 800_000 {
            QualityGrade::VeryGood
        } else if overall >= 700_000 {
            QualityGrade::Good
        } else if overall >= 600_000 {
            QualityGrade::Fair
        } else if overall >= 400_000 {
            QualityGrade::Poor
        } else {
            QualityGrade::VeryPoor
        }
    }

    /// The place of a grade in the order of grades: 0 for the worst, 5 for the best.
    pub open spec fn rank(self) -> int {
        match self {
            QualityGrade::Excellent => 5,
            QualityGrade::VeryGood => 4,
            QualityGrade::Good => 3,
            QualityGrade::Fair => 2,
            QualityGrade::Poor => 1,
            QualityGrade::VeryPoor => 0,
        }
    }

    /// The name of each grade.
    pub open spec fn spec_as_str(self) -> Seq<char> {
        match self {
            QualityGrade::Excellent => "Excellent"@,
            QualityGrade::VeryGood => "Very Good"@,
            QualityGrade::Good => "Good"@,
            QualityGrade::Fair => "Fair"@,
            QualityGrade::Poor => "Poor"@,
            QualityGrade::VeryPoor => "Very Poor"@,
        }
    }

    /// The name of the grade.
    pub fn as_str(&self) -> (name: &'static str)
        ensures
            name@ == self.spec_as_str(),
    {
        match self {
            QualityGrade::Excellent => "Excellent",
            QualityGrade::VeryGood => "Very Good",
            QualityGrade::Good => "Good",
            QualityGrade::Fair => "Fair",
            QualityGrade::Poor => "Poor",
            QualityGrade::VeryPoor => "Very Poor",
        }
    }
}

/// The grade never falls when the overall score rises.
pub proof fn lemma_grade_is_monotonic(lower: u64, higher: u64)
    requires
        lower <= higher,
    ensures
        QualityGrade::spec_from_score(lower).rank() <= QualityGrade::spec_from_score(higher).rank(),
{
}

impl QualityScore {
    /// The weighted sum of the four sub-scores, 35% blur, 35% exposure,
    /// 15% composition and 15% technical, clamped to one whole.
    pub open spec fn spec_overall(
        blur: u64,
        exposure: u64,
        composition: u64,
        technical: u64,
    ) -> int {
        let weighted = (350 * blur + 350 * exposure + 150 * composition + 150 * technical) / 1000;
        if weighted > 1_000_000 {
            1_000_000
        } else {
            weighted
        }
    }

    /// Create new quality score.
    pub fn new(blur: u64, exposure: u64, composition: u64, technical: u64) -> (score: Self)
        ensures
            score.overall == Self::spec_overall(blur, exposure, composition, technical),
            score.overall <= 1_000_000,
            score.blur == blur,
            score.exposure == exposure,
            score.composition == composition,
            score.technical == technical,
    {
        let weighted: u128 = (350 * (blur as u128) + 350 * (exposure as u128) + 150 * (
        composition as u128) + 150 * (technical as u128)) / 1000;
        let overall: u64 = if weighted > 1_000_000 {
            1_000_000
        } else {
            weighted as u64
        };
        Self { overall, blur, exposure, composition, technical }
    }

    /// Check if quality meets minimum threshold.
    pub fn meets_threshold(&self, threshold: u64) -> (meets: bool)
        ensures
            meets == (self.overall >= threshold),
    {
        self.overall >= threshold
    }

    /// Get quality grade.
    pub fn get_grade(&self) -> (grade: QualityGrade)
        ensures
            grade == QualityGrade::spec_from_score(self.overall),
    {
        if self.overall >= 900_000 {
            QualityGrade::Excellent
        } else if self.overall >= 800_000 {
            QualityGrade::VeryGood
        } else if self.overall >= 700_000 {
            QualityGrade::Good
        } else if self.overall >= 600_000 {
            QualityGrade::Fair
        } else if self.overall >= 400_000 {
            QualityGrade::Poor
        } else {
            QualityGrade::VeryPoor
        }
    }
}

/// Color distribution analysis. Every field is in millionths.
#[derive(Debug, Clone, Copy, PartialEq, Eq, Structural)]
pub struct ColorDistribution {
    pub red_mean: u64,
    pub green_mean: u64,
    pub blue_mean: u64,
    pub saturation_mean: u64,
    pub color_balance_score: u64,
}

/// Technical analysis details. The aspect ratio and the noise estimate
/// are in millionths.
#[derive(Debug, Clone, Copy, PartialEq, Eq)]
pub struct TechnicalDetails {
    pub resolution: (u32, u32),
    pub pixel_count: u32,
    pub aspect_ratio: u64,
    pub noise_estimate: u64,
    pub color_distribution: ColorDistribution,
}

/// Quality validation configuration. The thresholds and the noise ceiling
/// are in millionths.
#[derive(Debug, Clone, Copy, PartialEq, Eq)]
pub struct ValidationConfig {
    /// Minimum blur quality.
    pub blur_threshold: u64,
    /// Minimum exposure quality.
    pub exposure_threshold: u64,
    /// Minimum overall quality.
    pub overall_threshold: u64,
    /// Minimum resolution, width then height.
    pub min_resolution: (u32, u32),
    /// Maximum acceptable noise.
    pub max_noise_level: u64,
}

impl ValidationConfig {
    /// A configuration is well formed when its thresholds and its noise
    /// ceiling lie in the range of scores.
    pub open spec fn well_formed(&self) -> bool {
        &&& self.blur_threshold <= 1_000_000
        &&& self.exposure_threshold <= 1_000_000
        &&& self.overall_threshold <= 1_000_000
        &&& self.max_noise_level <= 1_000_000
    }

    /// Whether the configuration is well formed.
    pub fn is_valid(&self) -> (valid: bool)
        ensures
            valid == self.well_formed(),
    {
        self.blur_threshold <= 1_000_000 && self.exposure_threshold <= 1_000_000
            && self.overall_threshold <= 1_000_000 && self.max_noise_level <= 1_000_000
    }
}

impl Default for ValidationConfig {
    fn default() -> (config: Self)
        ensures
            config == (ValidationConfig {
                blur_threshold: 600_000,
                exposure_threshold: 600_000,
                overall_threshold: 700_000,
                min_resolution: (640u32, 480u32),
                max_noise_level: 300_000,
            }),
            config.well_formed(),
    {
        Self {
            blur_threshold: 600_000,
            exposure_threshold: 600_000,
            overall_threshold: 700_000,
            min_resolution: (640, 480),
            max_noise_level: 300_000,
        }
    }
}

/// The sum of the three channels of the pixel that starts at byte `i`.
pub open spec fn intensity(data: Seq<u8>, i: int) -> int {
    data[i] + data[i + 1] + data[i + 2]
}

/// 81 times the variance of the mean channel value of the three
/// consecutive pixels that start at byte `i`.
pub open spec fn triplet_spread(data: Seq<u8>, i: int) -> int {
    let a = intensity(data, i);
    let b = intensity(data, i + 3);
    let c = intensity(data, i + 6);
    3 * (a * a + b * b + c * c) - (a + b + c) * (a + b + c)
}

/// The spread of each sampled triplet: one triplet every hundred pixels.
pub open spec fn triplet_spreads(data: Seq<u8>) -> spec_fn(int) -> int {
    |k: int| triplet_spread(data, 300 * k)
}

/// The number of sampled triplets that fit in a buffer of `len` bytes.
pub open spec fn triplet_count(len: int) -> int {
    if len < 9 {
        0
    } else {
        (len - 9) / 300 + 1
    }
}

/// The noise estimate in millionths: the mean variance of the sampled
/// triplets as a fraction of 255, at most one whole. A buffer too short
/// for one triplet counts as fully noisy. This is a cheap stand-in for
/// sensor noise, not a noise model.
pub open spec fn spec_noise_level(data: Seq<u8>) -> int {
    let count = triplet_count(data.len() as int);
    if count <= 0 {
        1_000_000
    } else {
        let level = sum_to(count, triplet_spreads(data)) * 1_000_000 / (81 * 255 * count);
        if level > 1_000_000 {
            1_000_000
        } else {
            level
        }
    }
}

/// The values of channel `c` (0 red, 1 green, 2 blue), by pixel.
pub open spec fn channel(data: Seq<u8>, c: int) -> spec_fn(int) -> int {
    |p: int| data[3 * p + c] as int
}

/// The largest of three numbers.
pub open spec fn max_of(a: int, b: int, c: int) -> int {
    if a >= b && a >= c {
        a
    } else if b >= c {
        b
    } else {
        c
    }
}

/// The smallest of three numbers.
pub open spec fn min_of(a: int, b: int, c: int) -> int {
    if a <= b && a <= c {
        a
    } else if b <= c {
        b
    } else {
        c
    }
}

/// The saturation of a colour in millionths: `(max - min) / max`, zero for black.
pub open spec fn saturation_of(r: int, g: int, b: int) -> int {
    if max_of(r, g, b) <= 0 {
        0
    } else {
        (max_of(r, g, b) - min_of(r, g, b)) * 1_000_000 / max_of(r, g, b)
    }
}

/// The saturation of each pixel, in millionths.
pub open spec fn saturations(data: Seq<u8>) -> spec_fn(int) -> int {
    |p: int| saturation_of(data[3 * p] as int, data[3 * p + 1] as int, data[3 * p + 2] as int)
}

/// The colour balance score in millionths, from the three channel sums of
/// `pixels` pixels: one whole less the standard deviation of the three
/// channel means, never below zero.
pub open spec fn spec_color_balance(red: int, green: int, blue: int, pixels: int) -> int {
    let spread = 3 * (red * red + green * green + blue * blue) - (red + green + blue) * (red
        + green + blue);
    let deviation = sqrt_floor((spread * 1_000_000_000_000) as nat) as int / (3 * 255 * pixels);
    if deviation > 1_000_000 {
        0
    } else {
        1_000_000 - deviation
    }
}

/// The colour distribution of a packed RGB buffer.
pub open spec fn spec_color_distribution(data: Seq<u8>) -> ColorDistribution {
    let pixels = (data.len() / 3) as int;
    if pixels <= 0 {
        ColorDistribution {
            red_mean: 0,
            green_mean: 0,
            blue_mean: 0,
            saturation_mean: 0,
            color_balance_score: 0,
        }
    } else {
        let red = sum_to(pixels, channel(data, 0));
        let green = sum_to(pixels, channel(data, 1));
        let blue = sum_to(pixels, channel(data, 2));
        ColorDistribution {
            red_mean: (red * 1_000_000 / (pixels * 255)) as u64,
            green_mean: (green * 1_000_000 / (pixels * 255)) as u64,
            blue_mean: (blue * 1_000_000 / (pixels * 255)) as u64,
            saturation_mean: (sum_to(pixels, saturations(data)) / pixels) as u64,
            color_balance_score: spec_color_balance(red, green, blue, pixels) as u64,
        }
    }
}

/// The technical details of a frame.
pub open spec fn spec_technical(frame: &CameraFrame) -> TechnicalDetails {
    TechnicalDetails {
        resolution: (frame.width, frame.height),
        pixel_count: (frame.width * frame.height) as u32,
        aspect_ratio: frame.spec_aspect_ratio() as u64,
        noise_estimate: spec_noise_level(frame.data@) as u64,
        color_distribution: spec_color_distribution(frame.data@),
    }
}

/// Whether a resolution reaches the minimum in both dimensions.
pub open spec fn meets_resolution(resolution: (u32, u32), minimum: (u32, u32)) -> bool {
    resolution.0 >= minimum.0 && resolution.1 >= minimum.1
}

/// The distance between two numbers.
pub open spec fn gap(a: int, b: int) -> int {
    if a >= b {
        a - b
    } else {
        b - a
    }
}

/// The preference score of an aspect ratio `width / height`, in
/// millionths: 1 within a tenth of 16:9, 0.9 within a tenth of 4:3, 0.8
/// within a tenth of 3:2, otherwise 0.6. Each test is the exact
/// comparison of the ratio, cleared of fractions.
pub open spec fn aspect_score(width: int, height: int) -> int {
    if gap(90 * width, 160 * height) < 9 * height {
        1_000_000
    } else if gap(30 * width, 40 * height) < 3 * height {
        900_000
    } else if gap(10 * width, 15 * height) < height {
        800_000
    } else {
        600_000
    }
}

/// The composition score in millionths: 40% resolution adequacy (1 when
/// the minimum resolution is met, else 0.6), 30% aspect ratio preference,
/// 30% colour balance; at most one whole.
pub open spec fn spec_composition(config: ValidationConfig, technical: TechnicalDetails) -> int {
    let resolution_score: int = if meets_resolution(technical.resolution, config.min_resolution) {
        1_000_000
    } else {
        600_000
    };
    let blend = (400 * resolution_score + 300 * aspect_score(
        technical.resolution.0 as int,
        technical.resolution.1 as int,
    ) + 300 * technical.color_distribution.color_balance_score) / 1000;
    if blend > 1_000_000 {
        1_000_000
    } else {
        blend
    }
}

/// The acceptance test: the overall, blur and exposure scores reach their
/// thresholds, the resolution reaches the minimum and the noise stays at
/// or below its ceiling. All five conditions are required.
pub open spec fn spec_is_acceptable(
    config: ValidationConfig,
    score: QualityScore,
    technical: TechnicalDetails,
) -> bool {
    &&& score.overall >= config.overall_threshold
    &&& score.blur >= config.blur_threshold
    &&& score.exposure >= config.exposure_threshold
    &&& meets_resolution(technical.resolution, config.min_resolution)
    &&& technical.noise_estimate <= config.max_noise_level
}

/// The three integers `a`, `b`, `c` are no further apart than their sum
/// of squares allows: three times the sum of squares is at least the
/// square of the sum.
proof fn lemma_spread_of_three(a: int, b: int, c: int)
    ensures
        3 * (a * a + b * b + c * c) - (a + b + c) * (a + b + c) >= 0,
{
    assert(3 * (a * a + b * b + c * c) - (a + b + c) * (a + b + c) == (a - b) * (a - b) + (b - c)
        * (b - c) + (a - c) * (a - c)) by (nonlinear_arith);
    assert((a - b) * (a - b) >= 0) by (nonlinear_arith);
    assert((b - c) * (b - c) >= 0) by (nonlinear_arith);
    assert((a - c) * (a - c) >= 0) by (nonlinear_arith);
}

/// Reads the intensity of the pixel that starts at byte `i`.
fn pixel_intensity(data: &[u8], i: usize) -> (sum: i64)
    requires
        i + 2 < data@.len(),
    ensures
        sum == intensity(data@, i as int),
        0 <= sum <= 765,
{
    data[i] as i64 + data[i + 1] as i64 + data[i + 2] as i64
}

/// The largest of three bytes.
fn largest(a: u8, b: u8, c: u8) -> (m: u8)
    ensures
        m == max_of(a as int, b as int, c as int),
{
    if a >= b && a >= c {
        a
    } else if b >= c {
        b
    } else {
        c
    }
}

/// The smallest of three bytes.
fn smallest(a: u8, b: u8, c: u8) -> (m: u8)
    ensures
        m == min_of(a as int, b as int, c as int),
        m <= max_of(a as int, b as int, c as int),
{
    if a <= b && a <= c {
        a
    } else if b <= c {
        b
    } else {
        c
    }
}

/// Advice for a blurry or very blurry image.
pub const ADVICE_BLUR: &'static str =
    "Image is blurry. Try stabilizing the camera or using faster shutter speed.";

/// Advice for an underexposed image.
pub const ADVICE_UNDEREXPOSED: &'static str =
    "Image is underexposed. Increase exposure time, ISO, or add lighting.";

/// Advice for an overexposed image.
pub const ADVICE_OVEREXPOSED: &'static str =
    "Image is overexposed. Decrease exposure time, lower ISO, or reduce lighting.";

/// Advice for a noise estimate above the ceiling.
pub const ADVICE_NOISE: &'static str =
    "High noise detected. Consider lowering ISO or improving lighting conditions.";

/// Advice for a resolution below the minimum.
pub const ADVICE_RESOLUTION: &'static str =
    "Low resolution detected. Consider using higher resolution settings.";

/// Advice for a colour balance score below 0.6.
pub const ADVICE_COLOR: &'static str =
    "Poor color balance detected. Check white balance settings or lighting conditions.";

/// The single line given when no advice applies.
pub const ADVICE_NONE: &'static str = "Image quality is good. No specific improvements needed.";

/// `lines` with `line` appended when `applies` holds.
pub open spec fn with_advice(lines: Seq<Seq<char>>, applies: bool, line: Seq<char>) -> Seq<
    Seq<char>,
> {
    if applies {
        lines.push(line)
    } else {
        lines
    }
}

/// The recommendations for a frame: one line for each rule that fires, in
/// the order blur, exposure, noise, resolution, colour balance; when none
/// fires, the single line that says so.
pub open spec fn spec_recommendations(
    config: ValidationConfig,
    blur_level: BlurLevel,
    exposure_level: ExposureLevel,
    technical: TechnicalDetails,
) -> Seq<Seq<char>> {
    let blur = with_advice(
        Seq::empty(),
        blur_level == BlurLevel::Blurry || blur_level == BlurLevel::VeryBlurry,
        ADVICE_BLUR@,
    );
    let under = with_advice(
        blur,
        exposure_level == ExposureLevel::Underexposed,
        ADVICE_UNDEREXPOSED@,
    );
    let over = with_advice(
        under,
        exposure_level == ExposureLevel::Overexposed,
        ADVICE_OVEREXPOSED@,
    );
    let noise = with_advice(
        over,
        technical.noise_estimate > config.max_noise_level,
        ADVICE_NOISE@,
    );
    let resolution = with_advice(
        noise,
        !meets_resolution(technical.resolution, config.min_resolution),
        ADVICE_RESOLUTION@,
    );
    let color = with_advice(
        resolution,
        technical.color_distribution.color_balance_score < 600_000,
        ADVICE_COLOR@,
    );
    if color.len() == 0 {
        seq![ADVICE_NONE@]
    } else {
        color
    }
}

/// Comprehensive quality report.
#[derive(Debug, Clone, PartialEq, Eq)]
pub struct QualityReport {
    pub score: QualityScore,
    pub grade: QualityGrade,
    pub blur_metrics: BlurMetrics,
    pub exposure_metrics: ExposureMetrics,
    pub recommendations: Vec<String>,
    pub is_acceptable: bool,
    pub technical_details: TechnicalDetails,
}

/// What a [`QualityReport`] holds, with its lists as sequences.
pub struct QualityReportView {
    pub score: QualityScore,
    pub grade: QualityGrade,
    pub blur_metrics: BlurMetrics,
    pub exposure_metrics: ExposureMetricsView,
    pub recommendations: Seq<Seq<char>>,
    pub is_acceptable: bool,
    pub technical_details: TechnicalDetails,
}

impl View for QualityReport {
    type V = QualityReportView;

    open spec fn view(&self) -> QualityReportView {
        QualityReportView {
            score: self.score,
            grade: self.grade,
            blur_metrics: self.blur_metrics,
            exposure_metrics: self.exposure_metrics@,
            recommendations: texts(self.recommendations@),
            is_acceptable: self.is_acceptable,
            technical_details: self.technical_details,
        }
    }
}

/// The distance between two numbers.
fn distance(a: i64, b: i64) -> (d: i64)
    requires
        0 <= a <= 0xffff_ffff_ffff,
        0 <= b <= 0xffff_ffff_ffff,
    ensures
        d == gap(a as int, b as int),
{
    if a >= b {
        a - b
    } else {
        b - a
    }
}

/// Three times the sum of the squares of three channel sums, less the
/// square of their sum.
fn spread_of_three(a: u64, b: u64, c: u64) -> (spread: u128)
    requires
        a <= 0xff_0000_0000,
        b <= 0xff_0000_0000,
        c <= 0xff_0000_0000,
    ensures
        spread == 3 * (a * a + b * b + c * c) - (a + b + c) * (a + b + c),
        spread <= 9 * (0xff_0000_0000 * 0xff_0000_0000),
{
    let x: i128 = a as i128;
    let y: i128 = b as i128;
    let z: i128 = c as i128;
    assert(0 <= x * x <= 0xff_0000_0000 * 0xff_0000_0000 && 0 <= y * y <= 0xff_0000_0000
        * 0xff_0000_0000 && 0 <= z * z <= 0xff_0000_0000 * 0xff_0000_0000 && 0 <= (x + y + z) * (x
        + y + z) <= 9 * (0xff_0000_0000 * 0xff_0000_0000)) by (nonlinear_arith)
        requires
            0 <= x <= 0xff_0000_0000,
            0 <= y <= 0xff_0000_0000,
            0 <= z <= 0xff_0000_0000,
    ;
    proof {
        lemma_spread_of_three(x as int, y as int, z as int);
    }
    let difference: i128 = 3 * (x * x + y * y + z * z) - (x + y + z) * (x + y + z);
    difference as u128
}

/// Computes [`spec_color_balance`] from the three channel sums.
fn color_balance(red: u64, green: u64, blue: u64, pixels: u64) -> (score: u64)
    requires
        0 < pixels <= u32::MAX,
        red <= 255 * pixels,
        green <= 255 * pixels,
        blue <= 255 * pixels,
    ensures
        score == spec_color_balance(red as int, green as int, blue as int, pixels as int),
        score <= 1_000_000,
{
    let scale: u128 = 765 * (pixels as u128);
    let spread: u128 = spread_of_three(red, green, blue);
    let root: u128 = isqrt(spread * 1_000_000_000_000);
    let deviation: u128 = root / scale;
    if deviation > 1_000_000 {
        0
    } else {
        1_000_000 - deviation as u64
    }
}

/// Comprehensive quality validator.
pub struct QualityValidator {
    pub blur_detector: BlurDetector,
    pub exposure_analyzer: ExposureAnalyzer,
    pub config: ValidationConfig,
}

impl Default for QualityValidator {
    fn default() -> (validator: Self)
        ensures
            validator.config == (ValidationConfig {
                blur_threshold: 600_000,
                exposure_threshold: 600_000,
                overall_threshold: 700_000,
                min_resolution: (640u32, 480u32),
                max_noise_level: 300_000,
            }),
            validator.exposure_analyzer.dark_threshold == 30,
            validator.exposure_analyzer.bright_threshold == 225,
            validator.blur_detector.threshold_variance == 200_000_000,
            validator.blur_detector.threshold_gradient == 50_000_000,
    {
        Self {
            blur_detector: BlurDetector::default(),
            exposure_analyzer: ExposureAnalyzer::default(),
            config: ValidationConfig::default(),
        }
    }
}

impl QualityValidator {
    /// Create new quality validator with custom configuration.
    pub fn new(config: ValidationConfig) -> (validator: Self)
        ensures
            validator.config == config,
            validator.exposure_analyzer.dark_threshold == 30,
            validator.exposure_analyzer.bright_threshold == 225,
            validator.blur_detector.threshold_variance == 200_000_000,
            validator.blur_detector.threshold_gradient == 50_000_000,
    {
        Self {
            blur_detector: BlurDetector::default(),
            exposure_analyzer: ExposureAnalyzer::default(),
            config,
        }
    }

    /// The configuration in force.
    pub fn get_config(&self) -> (config: ValidationConfig)
        ensures
            config == self.config,
    {
        self.config
    }

    /// Replaces the configuration when the new one is well formed;
    /// otherwise rejects it and keeps the old one. Only the configuration
    /// changes.
    pub fn update_config(&mut self, config: ValidationConfig) -> (result: Result<(), QualityError>)
        ensures
            config.well_formed() ==> result == Ok::<(), QualityError>(()) && final(self).config
                == config,
            !config.well_formed() ==> result == Err::<(), QualityError>(
                QualityError::InvalidConfig,
            ) && final(self).config == old(self).config,
            final(self).blur_detector == old(self).blur_detector,
            final(self).exposure_analyzer == old(self).exposure_analyzer,
    {
        if config.is_valid() {
            self.config = config;
            Ok(())
        } else {
            Err(QualityError::InvalidConfig)
        }
    }

    /// The report of a frame under this validator: the three analyses,
    /// the composition score, the weighted overall score with its grade,
    /// the recommendations and the acceptance test. The technical
    /// sub-score is the noise estimate.
    #[verifier::opaque]
    pub open spec fn spec_validate(&self, frame: &CameraFrame) -> QualityReportView {
        let blur_metrics = BlurDetector::spec_analyze(
            frame.data@,
            frame.width as int,
            frame.height as int,
        );
        let exposure_metrics = self.exposure_analyzer.spec_analyze(frame.data@);
        let technical_details = spec_technical(frame);
        let composition = spec_composition(self.config, technical_details) as u64;
        let score = QualityScore {
            overall: QualityScore::spec_overall(
                blur_metrics.quality_score,
                exposure_metrics.quality_score,
                composition,
                technical_details.noise_estimate,
            ) as u64,
            blur: blur_metrics.quality_score,
            exposure: exposure_metrics.quality_score,
            composition,
            technical: technical_details.noise_estimate,
        };
        QualityReportView {
            score,
            grade: QualityGrade::spec_from_score(score.overall),
            blur_metrics,
            exposure_metrics,
            recommendations: spec_recommendations(
                self.config,
                blur_metrics.blur_level,
                exposure_metrics.exposure_level,
                technical_details,
            ),
            is_acceptable: spec_is_acceptable(self.config, score, technical_details),
            technical_details,
        }
    }

    /// Validate frame quality comprehensively. A frame that is not well
    /// formed is rejected before any analysis; every other frame gets
    /// its report, in which every score lies between zero and one whole
    /// and the histogram accounts for every pixel.
    pub fn validate_frame(&self, frame: &CameraFrame) -> (result: Result<
        QualityReport,
        QualityError,
    >)
        ensures
            frame.well_formed() ==> result is Ok && result->Ok_0@ == self.spec_validate(frame),
            !frame.well_formed() ==> result == Err::<QualityReport, QualityError>(
                QualityError::InvalidFrame,
            ),
            result is Ok ==> {
                let report = result->Ok_0;
                &&& report.score.overall <= 1_000_000
                &&& report.score.blur <= 1_000_000
                &&& report.score.exposure <= 1_000_000
                &&& report.score.composition <= 1_000_000
                &&& report.score.technical <= 1_000_000
                &&& histogram_total(report.exposure_metrics.histogram@) == frame.width
                    * frame.height
                &&& report.recommendations@.len() >= 1
            },
    {
        if !frame.is_valid() {
            return Err(QualityError::InvalidFrame);
        }
        reveal(QualityValidator::spec_validate);
        let blur_metrics = self.blur_detector.analyze_frame(frame);
        let exposure_metrics = self.exposure_analyzer.analyze_frame(frame);
        let technical_details = self.analyze_technical_aspects(frame);
        let composition_score = self.analyze_composition(frame, &technical_details);
        let quality_score = QualityScore::new(
            blur_metrics.quality_score,
            exposure_metrics.quality_score,
            composition_score,
            technical_details.noise_estimate,
        );
        let grade = quality_score.get_grade();
        let recommendations = self.generate_recommendations(
            &blur_metrics,
            &exposure_metrics,
            &technical_details,
        );
        let is_acceptable = self.is_frame_acceptable(&quality_score, &technical_details);
        Ok(
            QualityReport {
                score: quality_score,
                grade,
                blur_metrics,
                exposure_metrics,
                recommendations,
                is_acceptable,
                technical_details,
            },
        )
    }

    /// Estimate noise level in the image, in millionths.
    pub fn estimate_noise_level(&self, rgb_data: &[u8]) -> (noise: u64)
        ensures
            noise == spec_noise_level(rgb_data@),
            noise <= 1_000_000,
    {
        let len: usize = rgb_data.len();
        if len < 9 {
            return 1_000_000;
        }
        let count: usize = (len - 9) / 300 + 1;
        let mut total: u128 = 0;
        let mut k: usize = 0;
        while k < count
            invariant
                len == rgb_data@.len(),
                len >= 9,
                count == (len - 9) / 300 + 1,
                k <= count,
                total == sum_to(k as int, triplet_spreads(rgb_data@)),
                total <= 5_267_025 * k,
            decreases count - k,
        {
            let i: usize = 300 * k;
            let a: i64 = pixel_intensity(rgb_data, i);
            let b: i64 = pixel_intensity(rgb_data, i + 3);
            let c: i64 = pixel_intensity(rgb_data, i + 6);
            proof {
                lemma_spread_of_three(a as int, b as int, c as int);
            }
            assert(0 <= a * a <= 585_225 && 0 <= b * b <= 585_225 && 0 <= c * c <= 585_225 && 0
                <= (a + b + c) * (a + b + c)) by (nonlinear_arith)
                requires
                    0 <= a <= 765,
                    0 <= b <= 765,
                    0 <= c <= 765,
            ;
            let spread: i64 = 3 * (a * a + b * b + c * c) - (a + b + c) * (a + b + c);
            total = total + spread as u128;
            k = k + 1;
        }
        let level: u128 = total * 1_000_000 / (81 * 255 * (count as u128));
        if level > 1_000_000 {
            1_000_000
        } else {
            level as u64
        }
    }

    /// Analyze color distribution in the image.
    pub fn analyze_color_distribution(&self, rgb_data: &[u8]) -> (colors: ColorDistribution)
        requires
            rgb_data@.len() % 3 == 0,
            rgb_data@.len() / 3 <= u32::MAX,
        ensures
            colors == spec_color_distribution(rgb_data@),
            colors.red_mean <= 1_000_000,
            colors.green_mean <= 1_000_000,
            colors.blue_mean <= 1_000_000,
            colors.saturation_mean <= 1_000_000,
            colors.color_balance_score <= 1_000_000,
    {
        let len: usize = rgb_data.len();
        let pixels: usize = len / 3;
        if pixels == 0 {
            return ColorDistribution {
                red_mean: 0,
                green_mean: 0,
                blue_mean: 0,
                saturation_mean: 0,
                color_balance_score: 0,
            };
        }
        let mut red: u64 = 0;
        let mut green: u64 = 0;
        let mut blue: u64 = 0;
        let mut saturation: u64 = 0;
        let mut p: usize = 0;
        while p < pixels
            invariant
                len == rgb_data@.len(),
                len % 3 == 0,
                pixels == len / 3,
                pixels <= u32::MAX,
                p <= pixels,
                red == sum_to(p as int, channel(rgb_data@, 0)),
                green == sum_to(p as int, channel(rgb_data@, 1)),
                blue == sum_to(p as int, channel(rgb_data@, 2)),
                saturation == sum_to(p as int, saturations(rgb_data@)),
                red <= 255 * p,
                green <= 255 * p,
                blue <= 255 * p,
                saturation <= 1_000_000 * p,
            decreases pixels - p,
        {
            let i: usize = 3 * p;
            let r: u8 = rgb_data[i];
            let g: u8 = rgb_data[i + 1];
            let b: u8 = rgb_data[i + 2];
            let hi: u8 = largest(r, g, b);
            let lo: u8 = smallest(r, g, b);
            let share: u64 = if hi > 0 {
                proof {
                    lemma_div_upper_bound((hi - lo) * 1_000_000, hi as int, 1_000_000);
                }
                ((hi - lo) as u64) * 1_000_000 / (hi as u64)
            } else {
                0
            };
            red = red + r as u64;
            green = green + g as u64;
            blue = blue + b as u64;
            saturation = saturation + share;
            p = p + 1;
        }
        let full: u64 = (pixels as u64) * 255;
        proof {
            lemma_div_upper_bound(red * 1_000_000, full as int, 1_000_000);
            lemma_div_upper_bound(green * 1_000_000, full as int, 1_000_000);
            lemma_div_upper_bound(blue * 1_000_000, full as int, 1_000_000);
            lemma_div_upper_bound(saturation as int, pixels as int, 1_000_000);
        }
        ColorDistribution {
            red_mean: red * 1_000_000 / full,
            green_mean: green * 1_000_000 / full,
            blue_mean: blue * 1_000_000 / full,
            saturation_mean: saturation / (pixels as u64),
            color_balance_score: color_balance(red, green, blue, pixels as u64),
        }
    }

    /// Analyze technical aspects of the frame.
    pub fn analyze_technical_aspects(&self, frame: &CameraFrame) -> (technical: TechnicalDetails)
        requires
            frame.well_formed(),
        ensures
            technical == spec_technical(frame),
            technical.noise_estimate <= 1_000_000,
            technical.color_distribution.color_balance_score <= 1_000_000,
    {
        let resolution = (frame.width, frame.height);
        proof {
            assert(frame.width * frame.height >= 0) by (nonlinear_arith)
                requires
                    frame.width >= 0,
                    frame.height >= 0,
            ;
        }
        let pixel_count: u32 = frame.width * frame.height;
        let aspect_ratio = frame.aspect_ratio();
        let noise_estimate = self.estimate_noise_level(frame.data.as_slice());
        let color_distribution = self.analyze_color_distribution(frame.data.as_slice());
        TechnicalDetails {
            resolution,
            pixel_count,
            aspect_ratio,
            noise_estimate,
            color_distribution,
        }
    }

    /// Analyze composition quality, in millionths.
    pub fn analyze_composition(&self, _frame: &CameraFrame, technical: &TechnicalDetails) -> (score:
        u64)
        ensures
            score == spec_composition(self.config, *technical),
            score <= 1_000_000,
    {
        let resolution_score: u128 = if technical.resolution.0 >= self.config.min_resolution.0
            && technical.resolution.1 >= self.config.min_resolution.1 {
            1_000_000
        } else {
            600_000
        };
        let width: i64 = technical.resolution.0 as i64;
        let height: i64 = technical.resolution.1 as i64;
        let aspect: u128 = if distance(90 * width, 160 * height) < 9 * height {
            1_000_000
        } else if distance(30 * width, 40 * height) < 3 * height {
            900_000
        } else if distance(10 * width, 15 * height) < height {
            800_000
        } else {
            600_000
        };
        let color: u128 = technical.color_distribution.color_balance_score as u128;
        let blend: u128 = (400 * resolution_score + 300 * aspect + 300 * color) / 1000;
        if blend > 1_000_000 {
            1_000_000
        } else {
            blend as u64
        }
    }

    /// Generate quality improvement recommendations.
    pub fn generate_recommendations(
        &self,
        blur_metrics: &BlurMetrics,
        exposure_metrics: &ExposureMetrics,
        technical: &TechnicalDetails,
    ) -> (recommendations: Vec<String>)
        ensures
            texts(recommendations@) == spec_recommendations(
                self.config,
                blur_metrics.blur_level,
                exposure_metrics.exposure_level,
                *technical,
            ),
            recommendations@.len() >= 1,
    {
        let mut recommendations: Vec<String> = Vec::new();
        match blur_metrics.blur_level {
            BlurLevel::Blurry | BlurLevel::VeryBlurry => {
                push_line(&mut recommendations, ADVICE_BLUR);
            },
            _ => {},
        }
        match exposure_metrics.exposure_level {
            ExposureLevel::Underexposed => {
                push_line(&mut recommendations, ADVICE_UNDEREXPOSED);
            },
            ExposureLevel::Overexposed => {
                push_line(&mut recommendations, ADVICE_OVEREXPOSED);
            },
            _ => {},
        }
        if technical.noise_estimate > self.config.max_noise_level {
            push_line(&mut recommendations, ADVICE_NOISE);
        }
        if technical.resolution.0 < self.config.min_resolution.0 || technical.resolution.1
            < self.config.min_resolution.1 {
            push_line(&mut recommendations, ADVICE_RESOLUTION);
        }
        if technical.color_distribution.color_balance_score < 600_000 {
            push_line(&mut recommendations, ADVICE_COLOR);
        }
        if recommendations.len() == 0 {
            push_line(&mut recommendations, ADVICE_NONE);
        }
        recommendations
    }

    /// Check if frame meets acceptance criteria.
    pub fn is_frame_acceptable(
        &self,
        quality_score: &QualityScore,
        technical: &TechnicalDetails,
    ) -> (acceptable: bool)
        ensures
            acceptable == spec_is_acceptable(self.config, *quality_score, *technical),
    {
        quality_score.overall >= self.config.overall_threshold && quality_score.blur
            >= self.config.blur_threshold && quality_score.exposure
            >= self.config.exposure_threshold && technical.resolution.0
            >= self.config.min_resolution.0 && technical.resolution.1
            >= self.config.min_resolution.1 && technical.noise_estimate
            <= self.config.max_noise_level
    }
}

/// Validation is a function of the configuration, the analyzer thresholds
/// and the frame: two reports of one frame under one validator hold the
/// same values throughout.
pub proof fn lemma_validation_is_idempotent(
    validator: QualityValidator,
    frame: CameraFrame,
    first: QualityReport,
    second: QualityReport,
)
    requires
        first@ == validator.spec_validate(&frame),
        second@ == validator.spec_validate(&frame),
    ensures
        first@ == second@,
        first.score == second.score,
        first.grade == second.grade,
        first.blur_metrics == second.blur_metrics,
        first.exposure_metrics@ == second.exposure_metrics@,
        texts(first.recommendations@) == texts(second.recommendations@),
        first.is_acceptable == second.is_acceptable,
        first.technical_details == second.technical_details,
{
}

/// Raising the minimum resolution above the resolution of a frame makes
/// the frame unacceptable, and leaves its blur, exposure and technical
/// analyses and their sub-scores as they were. (The composition score,
/// and with it the overall score, does depend on the minimum resolution.)
pub proof fn lemma_raised_resolution_rejects(
    validator: QualityValidator,
    raised: QualityValidator,
    frame: CameraFrame,
)
    requires
        raised.exposure_analyzer == validator.exposure_analyzer,
        raised.config.blur_threshold == validator.config.blur_threshold,
        raised.config.exposure_threshold == validator.config.exposure_threshold,
        raised.config.overall_threshold == validator.config.overall_threshold,
        raised.config.max_noise_level == validator.config.max_noise_level,
        frame.width < raised.config.min_resolution.0 || frame.height
            < raised.config.min_resolution.1,
    ensures
        !raised.spec_validate(&frame).is_acceptable,
        raised.spec_validate(&frame).blur_metrics == validator.spec_validate(&frame).blur_metrics,
        raised.spec_validate(&frame).exposure_metrics == validator.spec_validate(
            &frame,
        ).exposure_metrics,
        raised.spec_validate(&frame).technical_details == validator.spec_validate(
            &frame,
        ).technical_details,
        raised.spec_validate(&frame).score.blur == validator.spec_validate(&frame).score.blur,
        raised.spec_validate(&frame).score.exposure == validator.spec_validate(
            &frame,
        ).score.exposure,
        raised.spec_validate(&frame).score.technical == validator.spec_validate(
            &frame,
        ).score.technical,
{
    reveal(QualityValidator::spec_validate);
}

} // verus!
