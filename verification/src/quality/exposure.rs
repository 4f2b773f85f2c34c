//! Exposure analysis: luminance histogram, brightness statistics and the
//! exposure level with its quality score.

use crate::fixed::{
    isqrt, lemma_div_upper_bound, lemma_floor_div_threshold, lemma_square_of_sum,
    lemma_sum_to_bounds,
    lemma_sum_to_congruence, lemma_sum_to_update, sqrt_floor, sum_to,
};
use crate::types::CameraFrame;
use vstd::prelude::*;

verus! {

/// Exposure analysis levels, from darkest to brightest; `WellExposed` is the optimum.
#[derive(Debug, Clone, Copy, PartialEq, Eq, Structural)]
pub enum ExposureLevel {
    Underexposed,
    SlightlyDark,
    WellExposed,
    SlightlyBright,
    Overexposed,
}

impl ExposureLevel {
    /// The level of a mean brightness given in millionths: below 0.2 is
    /// underexposed, below 0.35 slightly dark, below 0.65 well exposed,
    /// below 0.8 slightly bright.
    pub open spec fn spec_from_brightness(brightness: u64) -> ExposureLevel {
        if brightness < 200_000 {
            ExposureLevel::Underexposed
        } else if brightness < 350_000 {
            ExposureLevel::SlightlyDark
        } else if brightness < 650_000 {
            ExposureLevel::WellExposed
        } else if brightness < 800_000 {
            ExposureLevel::SlightlyBright
        } else {
            ExposureLevel::Overexposed
        }
    }

    /// Convert brightness, in millionths, to exposure level.
    pub fn from_brightness(brightness: u64) -> (level: Self)
        ensures
            level == Self::spec_from_brightness(brightness),
    {
        if brightness < 200_000 {
            ExposureLevel::Underexposed
        } else if brightness < 350_000 {
            ExposureLevel::SlightlyDark
        } else if brightness < 650_000 {
            ExposureLevel::WellExposed
        } else if brightness < 800_000 {
            ExposureLevel::SlightlyBright
        } else {
            ExposureLevel::Overexposed
        }
    }

    /// The fixed score of each level, in millionths.
    pub open spec fn spec_quality_score(self) -> u64 {
        match self {
            ExposureLevel::WellExposed => 1_000_000,
            ExposureLevel::SlightlyDark | ExposureLevel::SlightlyBright => 800_000,
            ExposureLevel::Underexposed | ExposureLevel::Overexposed => 300_000,
        }
    }

    /// Get quality score, in millionths (0 to 1 000 000).
    pub fn quality_score(&self) -> (score: u64)
        ensures
            score == self.spec_quality_score(),
            score <= 1_000_000,
    {
        match self {
            ExposureLevel::WellExposed => 1_000_000,
            ExposureLevel::SlightlyDark | ExposureLevel::SlightlyBright => 800_000,
            ExposureLevel::Underexposed | ExposureLevel::Overexposed => 300_000,
        }
    }
}

/// Exposure analysis metrics. All fractions are in millionths, rounded down.
#[derive(Debug, Clone, PartialEq, Eq)]
pub struct ExposureMetrics {
    /// Average brightness (0 to 1 000 000).
    pub mean_brightness: u64,
    /// Standard deviation of brightness, as a fraction of full scale.
    pub brightness_std: u64,
    /// 256-bin brightness histogram.
    pub histogram: Vec<u32>,
    /// Ratio of very dark pixels.
    pub dark_pixel_ratio: u64,
    /// Ratio of very bright pixels.
    pub bright_pixel_ratio: u64,
    /// Span between the lowest and the highest populated histogram bin.
    pub dynamic_range: u64,
    pub exposure_level: ExposureLevel,
    pub quality_score: u64,
}

/// What an [`ExposureMetrics`] holds, with the histogram as a sequence.
pub struct ExposureMetricsView {
    pub mean_brightness: u64,
    pub brightness_std: u64,
    pub histogram: Seq<u32>,
    pub dark_pixel_ratio: u64,
    pub bright_pixel_ratio: u64,
    pub dynamic_range: u64,
    pub exposure_level: ExposureLevel,
    pub quality_score: u64,
}

impl View for ExposureMetrics {
    type V = ExposureMetricsView;

    open spec fn view(&self) -> ExposureMetricsView {
        ExposureMetricsView {
            mean_brightness: self.mean_brightness,
            brightness_std: self.brightness_std,
            histogram: self.histogram@,
            dark_pixel_ratio: self.dark_pixel_ratio,
            bright_pixel_ratio: self.bright_pixel_ratio,
            dynamic_range: self.dynamic_range,
            exposure_level: self.exposure_level,
            quality_score: self.quality_score,
        }
    }
}

/// Exposure correction recommendations; each factor multiplies the
/// exposure time and is given in millionths.
#[derive(Debug, Clone, Copy, PartialEq, Eq, Structural)]
pub enum ExposureCorrection {
    NoChange,
    IncreaseExposure(u64),
    DecreaseExposure(u64),
}

/// The luminance of one pixel: `0.2126 R + 0.7152 G + 0.0722 B`, truncated.
pub open spec fn luma_of(r: u8, g: u8, b: u8) -> int {
    (2126 * r + 7152 * g + 722 * b) / 10000
}

/// The luminance image of a packed RGB buffer, one value per pixel.
pub open spec fn luminance(rgb: Seq<u8>) -> Seq<u8> {
    Seq::new(
        (rgb.len() / 3) as nat,
        |i: int| luma_of(rgb[3 * i], rgb[3 * i + 1], rgb[3 * i + 2]) as u8,
    )
}

/// The values of a byte sequence, by index.
pub open spec fn values(s: Seq<u8>) -> spec_fn(int) -> int {
    |i: int| s[i] as int
}

/// The squared values of a byte sequence, by index.
pub open spec fn squares(s: Seq<u8>) -> spec_fn(int) -> int {
    |i: int| (s[i] as int) * (s[i] as int)
}

/// One at each index that holds `v`, zero elsewhere.
pub open spec fn equal_to(s: Seq<u8>, v: int) -> spec_fn(int) -> int {
    |i: int|
        if s[i] == v {
            1int
        } else {
            0int
        }
}

/// One at each index that holds a value below `t`, zero elsewhere.
pub open spec fn below(s: Seq<u8>, t: int) -> spec_fn(int) -> int {
    |i: int|
        if s[i] < t {
            1int
        } else {
            0int
        }
}

/// One at each index that holds a value above `t`, zero elsewhere.
pub open spec fn above(s: Seq<u8>, t: int) -> spec_fn(int) -> int {
    |i: int|
        if s[i] > t {
            1int
        } else {
            0int
        }
}

/// The counts of a histogram, by bin.
pub open spec fn counts(h: Seq<u32>) -> spec_fn(int) -> int {
    |i: int| h[i] as int
}

/// The number of pixels a histogram accounts for.
pub open spec fn histogram_total(h: Seq<u32>) -> int {
    sum_to(h.len() as int, counts(h))
}

/// The histogram of a luminance image: 256 bins, of which bin `v` counts
/// the pixels of value `v`.
pub open spec fn histogram_of(lum: Seq<u8>) -> Seq<u32> {
    Seq::new(256, |v: int| sum_to(lum.len() as int, equal_to(lum, v)) as u32)
}

/// The mean of the values as a fraction of 255, in millionths.
pub open spec fn spec_mean_brightness(lum: Seq<u8>) -> int {
    if lum.len() == 0 {
        0
    } else {
        sum_to(lum.len() as int, values(lum)) * 1_000_000 / (lum.len() as int * 255)
    }
}

/// `n * n` times the population variance of the values.
pub open spec fn spread(lum: Seq<u8>) -> int {
    let n = lum.len() as int;
    let s1 = sum_to(n, values(lum));
    let s2 = sum_to(n, squares(lum));
    n * s2 - s1 * s1
}

/// The standard deviation of the values as a fraction of 255, in
/// millionths: `sqrt(spread) / (255 * n)`.
pub open spec fn spec_brightness_std(lum: Seq<u8>) -> int {
    if lum.len() == 0 {
        0
    } else {
        sqrt_floor((spread(lum) * 1_000_000_000_000) as nat) as int / (255 * lum.len() as int)
    }
}

/// The share of values below `threshold`, in millionths.
pub open spec fn spec_dark_pixel_ratio(lum: Seq<u8>, threshold: int) -> int {
    if lum.len() == 0 {
        0
    } else {
        sum_to(lum.len() as int, below(lum, threshold)) * 1_000_000 / (lum.len() as int)
    }
}

/// The share of values above `threshold`, in millionths.
pub open spec fn spec_bright_pixel_ratio(lum: Seq<u8>, threshold: int) -> int {
    if lum.len() == 0 {
        0
    } else {
        sum_to(lum.len() as int, above(lum, threshold)) * 1_000_000 / (lum.len() as int)
    }
}

/// The index of the first populated bin at or after `from`; the length of
/// the histogram when there is none.
pub open spec fn lowest_bin(h: Seq<u32>, from: int) -> int
    decreases h.len() - from,
{
    if from >= h.len() {
        h.len() as int
    } else if from >= 0 && h[from] > 0 {
        from
    } else {
        lowest_bin(h, from + 1)
    }
}

/// The index of the last populated bin before `until`; `-1` when there is none.
pub open spec fn highest_bin(h: Seq<u32>, until: int) -> int
    decreases until,
{
    if until <= 0 {
        -1
    } else if until <= h.len() && h[until - 1] > 0 {
        until - 1
    } else {
        highest_bin(h, until - 1)
    }
}

/// The span between the lowest and the highest populated bin as a fraction
/// of 255, in millionths; zero when fewer than two bins are populated.
pub open spec fn spec_dynamic_range(h: Seq<u32>) -> int {
    let lo = lowest_bin(h, 0);
    let hi = highest_bin(h, h.len() as int);
    if hi > lo {
        (hi - lo) * 1_000_000 / 255
    } else {
        0
    }
}

/// The score of a contrast: 1 inside the band 0.15 to 0.35, 0.8 inside
/// 0.1 to 0.4, otherwise 0.5; all in millionths.
pub open spec fn contrast_score(brightness_std: u64) -> int {
    if 150_000 < brightness_std < 350_000 {
        1_000_000
    } else if 100_000 < brightness_std < 400_000 {
        800_000
    } else {
        500_000
    }
}

/// The score of a dynamic range: 1 above 0.7, 0.8 above 0.5, 0.6 above
/// 0.3, otherwise 0.4; all in millionths.
pub open spec fn range_score(dynamic_range: u64) -> int {
    if dynamic_range > 700_000 {
        1_000_000
    } else if dynamic_range > 500_000 {
        800_000
    } else if dynamic_range > 300_000 {
        600_000
    } else {
        400_000
    }
}

/// The exposure score: 60% level score, 25% contrast score, 15% range score.
pub open spec fn spec_quality_score(
    level: ExposureLevel,
    brightness_std: u64,
    dynamic_range: u64,
) -> int {
    (600 * level.spec_quality_score() + 250 * contrast_score(brightness_std) + 150 * range_score(
        dynamic_range,
    )) / 1000
}

/// Adds up the values of a luminance image.
fn sum_values(lum: &[u8]) -> (sum: u128)
    ensures
        sum == sum_to(lum@.len() as int, values(lum@)),
        sum <= 255 * lum@.len(),
{
    let len: usize = lum.len();
    let mut sum: u128 = 0;
    let mut i: usize = 0;
    while i < len
        invariant
            len == lum@.len(),
            i <= len,
            sum == sum_to(i as int, values(lum@)),
            sum <= 255 * i,
        decreases len - i,
    {
        sum = sum + lum[i] as u128;
        i = i + 1;
    }
    sum
}

/// Adds up the squared values of a luminance image.
fn sum_squares(lum: &[u8]) -> (sum: u128)
    ensures
        sum == sum_to(lum@.len() as int, squares(lum@)),
        sum <= 65025 * lum@.len(),
{
    let len: usize = lum.len();
    let mut sum: u128 = 0;
    let mut i: usize = 0;
    while i < len
        invariant
            len == lum@.len(),
            i <= len,
            sum == sum_to(i as int, squares(lum@)),
            sum <= 65025 * i,
        decreases len - i,
    {
        let v: u128 = lum[i] as u128;
        assert(v * v <= 65025) by (nonlinear_arith)
            requires
                0 <= v <= 255,
        ;
        sum = sum + v * v;
        i = i + 1;
    }
    sum
}

/// Exposure analyzer for image quality assessment.
pub struct ExposureAnalyzer {
    /// Pixels below this are considered dark.
    pub dark_threshold: u8,
    /// Pixels above this are considered bright.
    pub bright_threshold: u8,
}

impl Default for ExposureAnalyzer {
    fn default() -> (analyzer: Self)
        ensures
            analyzer.dark_threshold == 30,
            analyzer.bright_threshold == 225,
    {
        Self { dark_threshold: 30, bright_threshold: 225 }
    }
}

impl ExposureAnalyzer {
    /// Create new exposure analyzer with custom thresholds.
    pub fn new(dark_threshold: u8, bright_threshold: u8) -> (analyzer: Self)
        ensures
            analyzer.dark_threshold == dark_threshold,
            analyzer.bright_threshold == bright_threshold,
    {
        Self { dark_threshold, bright_threshold }
    }

    /// The metrics of a frame with the given pixel buffer.
    pub open spec fn spec_analyze(&self, data: Seq<u8>) -> ExposureMetricsView {
        let lum = luminance(data);
        let histogram = histogram_of(lum);
        let mean_brightness = spec_mean_brightness(lum) as u64;
        let brightness_std = spec_brightness_std(lum) as u64;
        let dynamic_range = spec_dynamic_range(histogram) as u64;
        let exposure_level = ExposureLevel::spec_from_brightness(mean_brightness);
        ExposureMetricsView {
            mean_brightness,
            brightness_std,
            histogram,
            dark_pixel_ratio: spec_dark_pixel_ratio(lum, self.dark_threshold as int) as u64,
            bright_pixel_ratio: spec_bright_pixel_ratio(lum, self.bright_threshold as int) as u64,
            dynamic_range,
            exposure_level,
            quality_score: spec_quality_score(exposure_level, brightness_std, dynamic_range) as u64,
        }
    }

    /// Analyze frame exposure. The histogram accounts for every pixel of the frame.
    pub fn analyze_frame(&self, frame: &CameraFrame) -> (metrics: ExposureMetrics)
        requires
            frame.well_formed(),
        ensures
            metrics@ == self.spec_analyze(frame.data@),
            histogram_total(metrics.histogram@) == frame.width * frame.height,
            metrics.mean_brightness <= 1_000_000,
            metrics.dark_pixel_ratio <= 1_000_000,
            metrics.bright_pixel_ratio <= 1_000_000,
            metrics.dynamic_range <= 1_000_000,
            metrics.quality_score <= 1_000_000,
    {
        let grayscale = self.rgb_to_luminance(frame.data.as_slice(), frame.width, frame.height);
        let histogram = self.calculate_histogram(grayscale.as_slice());
        let mean_brightness = self.calculate_mean_brightness(grayscale.as_slice());
        let brightness_std = self.calculate_brightness_std(grayscale.as_slice());
        let dark_pixel_ratio = self.calculate_dark_pixel_ratio(grayscale.as_slice());
        let bright_pixel_ratio = self.calculate_bright_pixel_ratio(grayscale.as_slice());
        let dynamic_range = self.calculate_dynamic_range(histogram.as_slice());
        let exposure_level = ExposureLevel::from_brightness(mean_brightness);
        let quality_score = self.calculate_quality_score(
            &exposure_level,
            brightness_std,
            dynamic_range,
        );
        ExposureMetrics {
            mean_brightness,
            brightness_std,
            histogram,
            dark_pixel_ratio,
            bright_pixel_ratio,
            dynamic_range,
            exposure_level,
            quality_score,
        }
    }

    /// Convert RGB to luminance using standard weights, one value for each three bytes.
    pub fn rgb_to_luminance(&self, rgb_data: &[u8], _width: u32, _height: u32) -> (lum: Vec<u8>)
        requires
            rgb_data@.len() % 3 == 0,
        ensures
            lum@ == luminance(rgb_data@),
    {
        let len: usize = rgb_data.len();
        let pixels: usize = len / 3;
        let mut lum: Vec<u8> = Vec::with_capacity(pixels);
        let mut p: usize = 0;
        while p < pixels
            invariant
                len == rgb_data@.len(),
                len % 3 == 0,
                pixels == len / 3,
                p <= pixels,
                lum@.len() == p,
                forall|j: int| 0 <= j < p ==> lum@[j] == #[trigger] luminance(rgb_data@)[j],
            decreases pixels - p,
        {
            let i: usize = 3 * p;
            let r: u32 = rgb_data[i] as u32;
            let g: u32 = rgb_data[i + 1] as u32;
            let b: u32 = rgb_data[i + 2] as u32;
            let value: u32 = (2126 * r + 7152 * g + 722 * b) / 10000;
            lum.push(value as u8);
            p = p + 1;
        }
        lum
    }

    /// Calculate 256-bin histogram. The counts add up to the number of pixels.
    pub fn calculate_histogram(&self, luminance: &[u8]) -> (histogram: Vec<u32>)
        requires
            luminance@.len() <= u32::MAX,
        ensures
            histogram@ == histogram_of(luminance@),
            histogram_total(histogram@) == luminance@.len(),
    {
        let len: usize = luminance.len();
        let mut histogram: Vec<u32> = Vec::with_capacity(256);
        let mut b: usize = 0;
        while b < 256
            invariant
                b <= 256,
                histogram@.len() == b,
                forall|v: int| 0 <= v < b ==> histogram@[v] == 0,
                sum_to(b as int, counts(histogram@)) == 0,
            decreases 256 - b,
        {
            let ghost before = histogram@;
            histogram.push(0u32);
            proof {
                lemma_sum_to_congruence(b as int, counts(before), counts(histogram@));
            }
            b = b + 1;
        }
        let mut i: usize = 0;
        while i < len
            invariant
                len == luminance@.len(),
                len <= u32::MAX,
                i <= len,
                histogram@.len() == 256,
                forall|v: int|
                    0 <= v < 256 ==> #[trigger] histogram@[v] == sum_to(
                        i as int,
                        equal_to(luminance@, v),
                    ),
                histogram_total(histogram@) == i,
            decreases len - i,
        {
            let pixel: usize = luminance[i] as usize;
            let ghost before = histogram@;
            proof {
                lemma_sum_to_bounds(i as int, equal_to(luminance@, pixel as int), 0, 1);
            }
            let count: u32 = histogram[pixel];
            histogram.set(pixel, count + 1);
            proof {
                lemma_sum_to_update(256, counts(before), counts(histogram@), pixel as int, 1);
                assert forall|v: int| 0 <= v < 256 implies #[trigger] histogram@[v] == sum_to(
                    i + 1,
                    equal_to(luminance@, v),
                ) by {
                    assert(before[v] == sum_to(i as int, equal_to(luminance@, v)));
                }
            }
            i = i + 1;
        }
        histogram
    }

    /// Calculate mean brightness, in millionths (0 to 1 000 000).
    pub fn calculate_mean_brightness(&self, luminance: &[u8]) -> (mean: u64)
        ensures
            mean == spec_mean_brightness(luminance@),
            mean <= 1_000_000,
    {
        let len: usize = luminance.len();
        if len == 0 {
            return 0;
        }
        let sum: u128 = sum_values(luminance);
        let full: u128 = (len as u128) * 255;
        proof {
            lemma_div_upper_bound(sum * 1_000_000, full as int, 1_000_000);
        }
        (sum * 1_000_000 / full) as u64
    }

    /// Calculate brightness standard deviation, in millionths of full scale.
    pub fn calculate_brightness_std(&self, luminance: &[u8]) -> (std: u64)
        requires
            luminance@.len() <= u32::MAX,
        ensures
            std == spec_brightness_std(luminance@),
    {
        let len: usize = luminance.len();
        if len == 0 {
            return 0;
        }
        let n: i128 = len as i128;
        let s1: i128 = sum_values(luminance) as i128;
        let s2: i128 = sum_squares(luminance) as i128;
        assert(0 <= n * s2 <= 65025 * 0xffff_ffff * 0xffff_ffff && 0 <= s1 * s1 <= 65025
            * 0xffff_ffff * 0xffff_ffff) by (nonlinear_arith)
            requires
                0 < n <= 0xffff_ffff,
                0 <= s1 <= 255 * n,
                0 <= s2 <= 65025 * n,
        ;
        proof {
            lemma_square_of_sum(len as int, values(luminance@), squares(luminance@));
        }
        let spread: u128 = (n * s2 - s1 * s1) as u128;
        let root: u128 = isqrt(spread * 1_000_000_000_000);
        (root / (255 * (len as u128))) as u64
    }

    /// Calculate ratio of dark pixels, in millionths.
    pub fn calculate_dark_pixel_ratio(&self, luminance: &[u8]) -> (ratio: u64)
        ensures
            ratio == spec_dark_pixel_ratio(luminance@, self.dark_threshold as int),
            ratio <= 1_000_000,
    {
        let len: usize = luminance.len();
        if len == 0 {
            return 0;
        }
        let mut dark: usize = 0;
        let mut i: usize = 0;
        while i < len
            invariant
                len == luminance@.len(),
                i <= len,
                dark == sum_to(i as int, below(luminance@, self.dark_threshold as int)),
                dark <= i,
            decreases len - i,
        {
            if luminance[i] < self.dark_threshold {
                dark = dark + 1;
            }
            i = i + 1;
        }
        proof {
            lemma_div_upper_bound(dark * 1_000_000, len as int, 1_000_000);
        }
        ((dark as u128) * 1_000_000 / (len as u128)) as u64
    }

    /// Calculate ratio of bright pixels, in millionths.
    pub fn calculate_bright_pixel_ratio(&self, luminance: &[u8]) -> (ratio: u64)
        ensures
            ratio == spec_bright_pixel_ratio(luminance@, self.bright_threshold as int),
            ratio <= 1_000_000,
    {
        let len: usize = luminance.len();
        if len == 0 {
            return 0;
        }
        let mut bright: usize = 0;
        let mut i: usize = 0;
        while i < len
            invariant
                len == luminance@.len(),
                i <= len,
                bright == sum_to(i as int, above(luminance@, self.bright_threshold as int)),
                bright <= i,
            decreases len - i,
        {
            if luminance[i] > self.bright_threshold {
                bright = bright + 1;
            }
            i = i + 1;
        }
        proof {
            lemma_div_upper_bound(bright * 1_000_000, len as int, 1_000_000);
        }
        ((bright as u128) * 1_000_000 / (len as u128)) as u64
    }

    /// Calculate dynamic range, in millionths.
    pub fn calculate_dynamic_range(&self, histogram: &[u32]) -> (range: u64)
        requires
            histogram@.len() == 256,
        ensures
            range == spec_dynamic_range(histogram@),
            range <= 1_000_000,
    {
        let mut lo: usize = 0;
        while lo < 256 && histogram[lo] == 0
            invariant
                lo <= 256,
                histogram@.len() == 256,
                lowest_bin(histogram@, 0) == lowest_bin(histogram@, lo as int),
            decreases 256 - lo,
        {
            lo = lo + 1;
        }
        let mut hi: usize = 256;
        while hi > 0 && histogram[hi - 1] == 0
            invariant
                hi <= 256,
                histogram@.len() == 256,
                highest_bin(histogram@, 256) == highest_bin(histogram@, hi as int),
            decreases hi,
        {
            hi = hi - 1;
        }
        if hi > lo + 1 {
            (((hi - 1 - lo) as u64) * 1_000_000) / 255
        } else {
            0
        }
    }

    /// Calculate overall quality score, in millionths.
    pub fn calculate_quality_score(
        &self,
        exposure_level: &ExposureLevel,
        brightness_std: u64,
        dynamic_range: u64,
    ) -> (score: u64)
        ensures
            score == spec_quality_score(*exposure_level, brightness_std, dynamic_range),
            300_000 <= score <= 1_000_000,
    {
        let exposure_score: u64 = exposure_level.quality_score();
        let contrast: u64 = if brightness_std > 150_000 && brightness_std < 350_000 {
            1_000_000
        } else if brightness_std > 100_000 && brightness_std < 400_000 {
            800_000
        } else {
            500_000
        };
        let range: u64 = if dynamic_range > 700_000 {
            1_000_000
        } else if dynamic_range > 500_000 {
            800_000
        } else if dynamic_range > 300_000 {
            600_000
        } else {
            400_000
        };
        (600 * exposure_score + 250 * contrast + 150 * range) / 1000
    }

    /// Check if exposure is acceptable: anything but under- or overexposed.
    pub fn is_acceptable_exposure(&self, metrics: &ExposureMetrics) -> (acceptable: bool)
        ensures
            acceptable == (metrics.exposure_level != ExposureLevel::Underexposed
                && metrics.exposure_level != ExposureLevel::Overexposed),
    {
        match metrics.exposure_level {
            ExposureLevel::WellExposed
            | ExposureLevel::SlightlyDark
            | ExposureLevel::SlightlyBright => true,
            _ => false,
        }
    }

    /// The correction for each level: lengthen the exposure by 1.5 or 1.2
    /// when dark, shorten it to 0.8 or 0.6 when bright.
    pub open spec fn spec_exposure_correction(level: ExposureLevel) -> ExposureCorrection {
        match level {
            ExposureLevel::Underexposed => ExposureCorrection::IncreaseExposure(1_500_000),
            ExposureLevel::SlightlyDark => ExposureCorrection::IncreaseExposure(1_200_000),
            ExposureLevel::WellExposed => ExposureCorrection::NoChange,
            ExposureLevel::SlightlyBright => ExposureCorrection::DecreaseExposure(800_000),
            ExposureLevel::Overexposed => ExposureCorrection::DecreaseExposure(600_000),
        }
    }

    /// Get exposure correction recommendation.
    pub fn get_exposure_correction(&self, metrics: &ExposureMetrics) -> (correction:
        ExposureCorrection)
        ensures
            correction == Self::spec_exposure_correction(metrics.exposure_level),
    {
        match metrics.exposure_level {
            ExposureLevel::Underexposed => ExposureCorrection::IncreaseExposure(1_500_000),
            ExposureLevel::SlightlyDark => ExposureCorrection::IncreaseExposure(1_200_000),
            ExposureLevel::WellExposed => ExposureCorrection::NoChange,
            ExposureLevel::SlightlyBright => ExposureCorrection::DecreaseExposure(800_000),
            ExposureLevel::Overexposed => ExposureCorrection::DecreaseExposure(600_000),
        }
    }
}

/// Rounding the mean brightness down loses nothing at a breakpoint: the
/// mean in millionths lies below `t` millionths exactly when the true
/// mean, the sum of the values over 255 times their number, does.
pub proof fn lemma_brightness_threshold_is_exact(lum: Seq<u8>, t: int)
    requires
        lum.len() > 0,
    ensures
        spec_mean_brightness(lum) < t <==> sum_to(lum.len() as int, values(lum)) * 1_000_000 < t
            * (lum.len() * 255),
{
    lemma_floor_div_threshold(
        sum_to(lum.len() as int, values(lum)) * 1_000_000,
        lum.len() as int * 255,
        t,
    );
}

/// The spread of a luminance image is never negative.
pub proof fn lemma_spread_is_nonnegative(lum: Seq<u8>)
    ensures
        spread(lum) >= 0,
{
    lemma_square_of_sum(lum.len() as int, values(lum), squares(lum));
}

/// The number of the first `n` pixels that hold `v`, for each value `v`.
pub open spec fn counts_among(lum: Seq<u8>, n: int) -> spec_fn(int) -> int {
    |v: int| sum_to(n, equal_to(lum, v))
}

/// Each of the first `n` pixels is counted in exactly one of the 256 bins.
proof fn lemma_bins_partition(lum: Seq<u8>, n: int)
    requires
        0 <= n <= lum.len(),
    ensures
        sum_to(256, counts_among(lum, n)) == n,
    decreases n,
{
    if n > 0 {
        lemma_bins_partition(lum, n - 1);
        lemma_sum_to_update(
            256,
            counts_among(lum, n - 1),
            counts_among(lum, n),
            lum[n - 1] as int,
            1,
        );
    } else {
        crate::fixed::lemma_sum_to_constant(256, counts_among(lum, 0), 0);
    }
}

/// The bin counts of a histogram always sum to the number of pixels.
pub proof fn lemma_histogram_accounts_for_every_pixel(lum: Seq<u8>)
    requires
        lum.len() <= u32::MAX,
    ensures
        histogram_total(histogram_of(lum)) == lum.len(),
{
    let n = lum.len() as int;
    lemma_bins_partition(lum, n);
    assert forall|v: int| 0 <= v < 256 implies #[trigger] counts(histogram_of(lum))(v)
        == counts_among(lum, n)(v) by {
        lemma_sum_to_bounds(n, equal_to(lum, v), 0, 1);
    }
    lemma_sum_to_congruence(256, counts(histogram_of(lum)), counts_among(lum, n));
}

/// A frame of one colour has the luminance of that colour, as a fraction
/// of 255, as its mean brightness.
pub proof fn lemma_uniform_frame_brightness(data: Seq<u8>, pixels: int, analyzer: ExposureAnalyzer)
    requires
        0 < pixels,
        data.len() == 3 * pixels,
        forall|p: int, k: int|
            0 <= p < pixels && 0 <= k < 3 ==> #[trigger] data[3 * p + k] == data[k],
    ensures
        analyzer.spec_analyze(data).mean_brightness == luma_of(data[0], data[1], data[2])
            * 1_000_000 / 255,
{
    let lum = luminance(data);
    let level = luma_of(data[0], data[1], data[2]);
    let scaled = level * 1_000_000;
    assert forall|i: int| 0 <= i < pixels implies #[trigger] values(lum)(i) == level by {
        assert(data[3 * i + 0] == data[0]);
        assert(data[3 * i + 1] == data[1]);
        assert(data[3 * i + 2] == data[2]);
    }
    crate::fixed::lemma_sum_to_constant(pixels, values(lum), level);
    let total = sum_to(pixels, values(lum));
    assert(total * 1_000_000 == pixels * scaled) by (nonlinear_arith)
        requires
            total == pixels * level,
            scaled == level * 1_000_000,
    ;
    vstd::arithmetic::div_mod::lemma_div_denominator(pixels * scaled, pixels, 255);
    vstd::arithmetic::div_mod::lemma_div_multiples_vanish(scaled, pixels);
    lemma_div_upper_bound(scaled, 255, 1_000_000);
}

} // verus!
