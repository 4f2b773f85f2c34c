//! Blur detection: Laplacian variance, Sobel gradient magnitude and edge
//! density over the interior pixels of the grey-scale image.

use crate::fixed::{
    ceil_div, grid_sum, isqrt, lemma_ceil_div_is_least, lemma_div_upper_bound,
    lemma_grid_sum_bounds, lemma_row_offsets, lemma_square_of_grid_sum, row_sum, sqrt_floor,
};
use crate::types::CameraFrame;
use vstd::prelude::*;

verus! {

/// Blur detection levels, from sharpest to most blurred.
#[derive(Debug, Clone, Copy, PartialEq, Eq, Structural)]
pub enum BlurLevel {
    Sharp,
    Good,
    Moderate,
    Blurry,
    VeryBlurry,
}

impl BlurLevel {
    /// The level of a Laplacian variance given in millionths: above 1000
    /// is sharp, above 500 good, above 200 moderate, above 50 blurry.
    pub open spec fn spec_from_variance(variance: u64) -> BlurLevel {
        if variance > 1_000_000_000 {
            BlurLevel::Sharp
        } else if variance > 500_000_000 {
            BlurLevel::Good
        } else if variance > 200_000_000 {
            BlurLevel::Moderate
        } else if variance > 50_000_000 {
            BlurLevel::Blurry
        } else {
            BlurLevel::VeryBlurry
        }
    }

    /// Convert blur variance, in millionths, to blur level.
    pub fn from_variance(variance: u64) -> (level: Self)
        ensures
            level == Self::spec_from_variance(variance),
    {
        if variance > 1_000_000_000 {
            BlurLevel::Sharp
        } else if variance > 500_000_000 {
            BlurLevel::Good
        } else if variance > 200_000_000 {
            BlurLevel::Moderate
        } else if variance > 50_000_000 {
            BlurLevel::Blurry
        } else {
            BlurLevel::VeryBlurry
        }
    }

    /// The fixed score of each level, in millionths.
    pub open spec fn spec_quality_score(self) -> u64 {
        match self {
            BlurLevel::Sharp => 1_000_000,
            BlurLevel::Good => 800_000,
            BlurLevel::Moderate => 600_000,
            BlurLevel::Blurry => 300_000,
            BlurLevel::VeryBlurry => 100_000,
        }
    }

    /// Get quality score, in millionths (0 to 1 000 000).
    pub fn quality_score(&self) -> (score: u64)
        ensures
            score == self.spec_quality_score(),
            score <= 1_000_000,
    {
        match self {
            BlurLevel::Sharp => 1_000_000,
            BlurLevel::Good => 800_000,
            BlurLevel::Moderate => 600_000,
            BlurLevel::Blurry => 300_000,
            BlurLevel::VeryBlurry => 100_000,
        }
    }
}

/// Blur detection metrics. `variance`, `gradient_magnitude`, `edge_density`
/// and `quality_score` are in millionths.
#[derive(Debug, Clone, Copy, PartialEq, Eq, Structural)]
pub struct BlurMetrics {
    /// Laplacian variance (higher = sharper), rounded up.
    pub variance: u64,
    /// Mean Sobel gradient magnitude, rounded down.
    pub gradient_magnitude: u64,
    /// Share of interior pixels that lie on an edge, rounded down.
    pub edge_density: u64,
    pub blur_level: BlurLevel,
    pub quality_score: u64,
}

/// The grey value of one pixel: `0.299 R + 0.587 G + 0.114 B`, truncated.
pub open spec fn gray_of(r: u8, g: u8, b: u8) -> int {
    (299 * r + 587 * g + 114 * b) / 1000
}

/// The grey-scale image of a packed RGB buffer, one value per pixel.
pub open spec fn grayscale(rgb: Seq<u8>) -> Seq<u8> {
    Seq::new(
        (rgb.len() / 3) as nat,
        |i: int| gray_of(rgb[3 * i], rgb[3 * i + 1], rgb[3 * i + 2]) as u8,
    )
}

/// A pixel and its eight neighbours, named by compass direction.
#[derive(Debug, Clone, Copy, PartialEq, Eq, Structural)]
pub struct Window {
    pub nw: i32,
    pub n: i32,
    pub ne: i32,
    pub w: i32,
    pub c: i32,
    pub e: i32,
    pub sw: i32,
    pub s: i32,
    pub se: i32,
}

/// The window centred on column `x`, row `y` of an image `width` wide.
pub open spec fn window_at(gray: Seq<u8>, width: int, x: int, y: int) -> Window {
    Window {
        nw: gray[(y - 1) * width + (x - 1)] as i32,
        n: gray[(y - 1) * width + x] as i32,
        ne: gray[(y - 1) * width + (x + 1)] as i32,
        w: gray[y * width + (x - 1)] as i32,
        c: gray[y * width + x] as i32,
        e: gray[y * width + (x + 1)] as i32,
        sw: gray[(y + 1) * width + (x - 1)] as i32,
        s: gray[(y + 1) * width + x] as i32,
        se: gray[(y + 1) * width + (x + 1)] as i32,
    }
}

impl Window {
    /// Every value of the window is a grey value.
    pub open spec fn in_range(self) -> bool {
        &&& 0 <= self.nw <= 255
        &&& 0 <= self.n <= 255
        &&& 0 <= self.ne <= 255
        &&& 0 <= self.w <= 255
        &&& 0 <= self.c <= 255
        &&& 0 <= self.e <= 255
        &&& 0 <= self.sw <= 255
        &&& 0 <= self.s <= 255
        &&& 0 <= self.se <= 255
    }

    /// The response of the Laplacian kernel `[[0,-1,0],[-1,4,-1],[0,-1,0]]`.
    pub open spec fn spec_laplacian(self) -> int {
        4 * self.c - self.n - self.s - self.w - self.e
    }

    /// The response of the horizontal Sobel kernel.
    pub open spec fn spec_sobel_x(self) -> int {
        (self.ne - self.nw) + 2 * (self.e - self.w) + (self.se - self.sw)
    }

    /// The response of the vertical Sobel kernel.
    pub open spec fn spec_sobel_y(self) -> int {
        (self.sw + 2 * self.s + self.se) - (self.nw + 2 * self.n + self.ne)
    }

    /// The squared length of the Sobel gradient.
    pub open spec fn spec_gradient_squared(self) -> int {
        self.spec_sobel_x() * self.spec_sobel_x() + self.spec_sobel_y() * self.spec_sobel_y()
    }

    /// The length of the Sobel gradient in millionths, rounded down.
    pub open spec fn spec_gradient_magnitude(self) -> int {
        sqrt_floor((self.spec_gradient_squared() * 1_000_000_000_000) as nat) as int
    }

    /// Whether some neighbour differs from the centre by more than `threshold`.
    pub open spec fn spec_is_edge(self, threshold: int) -> bool {
        ||| abs_diff(self.c as int, self.nw as int) > threshold
        ||| abs_diff(self.c as int, self.n as int) > threshold
        ||| abs_diff(self.c as int, self.ne as int) > threshold
        ||| abs_diff(self.c as int, self.w as int) > threshold
        ||| abs_diff(self.c as int, self.e as int) > threshold
        ||| abs_diff(self.c as int, self.sw as int) > threshold
        ||| abs_diff(self.c as int, self.s as int) > threshold
        ||| abs_diff(self.c as int, self.se as int) > threshold
    }

    /// Reads the window centred on `(x, y)`.
    pub fn read(gray: &[u8], width: usize, x: usize, y: usize) -> (win: Window)
        requires
            1 <= x,
            x + 1 < width,
            1 <= y,
            (y + 2) * width <= gray@.len(),
        ensures
            win == window_at(gray@, width as int, x as int, y as int),
            win.in_range(),
    {
        let len: usize = gray.len();
        proof {
            assert((y + 2) * width == y * width + 2 * width) by (nonlinear_arith);
            assert((y + 1) * width == y * width + width) by (nonlinear_arith);
            assert((y - 1) * width == y * width - width) by (nonlinear_arith);
            assert(y * width >= width) by (nonlinear_arith)
                requires
                    y >= 1,
                    width >= 0,
            ;
        }
        let mid: usize = y * width;
        let up: usize = mid - width;
        let down: usize = mid + width;
        Window {
            nw: gray[up + x - 1] as i32,
            n: gray[up + x] as i32,
            ne: gray[up + x + 1] as i32,
            w: gray[mid + x - 1] as i32,
            c: gray[mid + x] as i32,
            e: gray[mid + x + 1] as i32,
            sw: gray[down + x - 1] as i32,
            s: gray[down + x] as i32,
            se: gray[down + x + 1] as i32,
        }
    }

    /// Applies the Laplacian kernel.
    pub fn laplacian(&self) -> (v: i32)
        requires
            self.in_range(),
        ensures
            v == self.spec_laplacian(),
            -1020 <= v <= 1020,
    {
        4 * self.c - self.n - self.s - self.w - self.e
    }

    /// Applies both Sobel kernels; returns the horizontal and the vertical response.
    pub fn sobel(&self) -> (g: (i32, i32))
        requires
            self.in_range(),
        ensures
            g.0 == self.spec_sobel_x(),
            g.1 == self.spec_sobel_y(),
            -1020 <= g.0 <= 1020,
            -1020 <= g.1 <= 1020,
    {
        let gx: i32 = (self.ne - self.nw) + 2 * (self.e - self.w) + (self.se - self.sw);
        let gy: i32 = (self.sw + 2 * self.s + self.se) - (self.nw + 2 * self.n + self.ne);
        (gx, gy)
    }

    /// The length of the Sobel gradient in millionths, rounded down.
    pub fn gradient_magnitude(&self) -> (m: u64)
        requires
            self.in_range(),
        ensures
            m == self.spec_gradient_magnitude(),
    {
        let (gx, gy) = self.sobel();
        assert(0 <= gx * gx <= 1_040_400 && 0 <= gy * gy <= 1_040_400) by (nonlinear_arith)
            requires
                -1020 <= gx <= 1020,
                -1020 <= gy <= 1020,
        ;
        let squared: i32 = gx * gx + gy * gy;
        let root: u128 = isqrt((squared as u128) * 1_000_000_000_000);
        root as u64
    }

    /// Whether some neighbour differs from the centre by more than `threshold`.
    pub fn is_edge(&self, threshold: i32) -> (edge: bool)
        requires
            self.in_range(),
        ensures
            edge == self.spec_is_edge(threshold as int),
    {
        let c: i32 = self.c;
        distance(c, self.nw) > threshold || distance(c, self.n) > threshold || distance(c, self.ne)
            > threshold || distance(c, self.w) > threshold || distance(c, self.e) > threshold
            || distance(c, self.sw) > threshold || distance(c, self.s) > threshold || distance(
            c,
            self.se,
        ) > threshold
    }
}

/// The distance between two numbers.
pub open spec fn abs_diff(a: int, b: int) -> int {
    if a >= b {
        a - b
    } else {
        b - a
    }
}

/// The distance between two grey values.
fn distance(a: i32, b: i32) -> (d: i32)
    requires
        0 <= a <= 255,
        0 <= b <= 255,
    ensures
        d == abs_diff(a as int, b as int),
{
    if a >= b {
        a - b
    } else {
        b - a
    }
}

/// The Laplacian response at each pixel of an image `width` wide.
pub open spec fn laplacian_map(gray: Seq<u8>, width: int) -> spec_fn(int, int) -> int {
    |x: int, y: int| window_at(gray, width, x, y).spec_laplacian()
}

/// The squared Laplacian response at each pixel.
pub open spec fn laplacian_squared_map(gray: Seq<u8>, width: int) -> spec_fn(int, int) -> int {
    |x: int, y: int|
        window_at(gray, width, x, y).spec_laplacian() * window_at(
            gray,
            width,
            x,
            y,
        ).spec_laplacian()
}

/// The Sobel gradient magnitude at each pixel, in millionths.
pub open spec fn gradient_map(gray: Seq<u8>, width: int) -> spec_fn(int, int) -> int {
    |x: int, y: int| window_at(gray, width, x, y).spec_gradient_magnitude()
}

/// One at each pixel that lies on an edge, zero elsewhere.
pub open spec fn edge_map(gray: Seq<u8>, width: int, threshold: int) -> spec_fn(int, int) -> int {
    |x: int, y: int|
        if window_at(gray, width, x, y).spec_is_edge(threshold) {
            1int
        } else {
            0int
        }
}

/// The number of interior pixels: those with a full ring of neighbours.
pub open spec fn interior_count(width: int, height: int) -> int {
    if width >= 3 && height >= 3 {
        (height - 2) * (width - 2)
    } else {
        0
    }
}

/// The sum of `f` over the interior pixels; zero when there are none.
pub open spec fn interior_sum(f: spec_fn(int, int) -> int, width: int, height: int) -> int {
    if width >= 3 && height >= 3 {
        grid_sum(f, width - 2, height - 2)
    } else {
        0
    }
}

/// The population variance of `n` values with sum `s1` and sum of squares
/// `s2`, in millionths and rounded up: `(n * s2 - s1 * s1) / (n * n)`.
pub open spec fn variance_micro(n: int, s1: int, s2: int) -> int {
    if n <= 0 {
        0
    } else {
        ceil_div((n * s2 - s1 * s1) * 1_000_000, n * n)
    }
}

/// `n * n` times the variance of the Laplacian response over the
/// `n` pixels of the interior.
pub open spec fn laplacian_spread(gray: Seq<u8>, width: int, height: int) -> int {
    interior_count(width, height) * interior_sum(
        laplacian_squared_map(gray, width),
        width,
        height,
    ) - interior_sum(laplacian_map(gray, width), width, height) * interior_sum(
        laplacian_map(gray, width),
        width,
        height,
    )
}

/// The variance of the Laplacian response over the interior, in millionths.
pub open spec fn spec_laplacian_variance(gray: Seq<u8>, width: int, height: int) -> int {
    variance_micro(
        interior_count(width, height),
        interior_sum(laplacian_map(gray, width), width, height),
        interior_sum(laplacian_squared_map(gray, width), width, height),
    )
}

/// The mean Sobel gradient magnitude over the interior, in millionths.
pub open spec fn spec_sobel_gradient(gray: Seq<u8>, width: int, height: int) -> int {
    if interior_count(width, height) <= 0 {
        0
    } else {
        interior_sum(gradient_map(gray, width), width, height) / interior_count(width, height)
    }
}

/// The share of interior pixels that lie on an edge, in millionths.
pub open spec fn spec_edge_density(gray: Seq<u8>, width: int, height: int) -> int {
    if interior_count(width, height) <= 0 {
        0
    } else {
        interior_sum(edge_map(gray, width, 50), width, height) * 1_000_000 / interior_count(
            width,
            height,
        )
    }
}

/// The interior of an image is no larger than the image, and every window
/// of an interior row lies inside the buffer.
proof fn lemma_interior_fits(width: int, height: int)
    requires
        3 <= width,
        3 <= height,
    ensures
        0 < (height - 2) * (width - 2) <= width * height,
        forall|y: int| 1 <= y <= height - 2 ==> (#[trigger] (y + 2)) * width <= width * height,
{
    assert(0 < (height - 2) * (width - 2) <= width * height) by (nonlinear_arith)
        requires
            3 <= width,
            3 <= height,
    ;
    assert forall|y: int| 1 <= y <= height - 2 implies (#[trigger] (y + 2)) * width <= width
        * height by {
        assert((y + 2) * width <= width * height) by (nonlinear_arith)
            requires
                y + 2 <= height,
                0 <= width,
        ;
    }
}

/// Computes [`variance_micro`] from the three moments of the Laplacian response.
fn variance_from_moments(n: u64, s1: i64, s2: u64) -> (variance: u64)
    requires
        n <= u32::MAX,
        -1020 * n <= s1 <= 1020 * n,
        s2 <= 1_040_400 * n,
        s1 * s1 <= n * s2,
    ensures
        variance == variance_micro(n as int, s1 as int, s2 as int),
        variance <= 1_040_400_000_000,
{
    if n == 0 {
        return 0;
    }
    let count: i128 = n as i128;
    let sum: i128 = s1 as i128;
    let squares: i128 = s2 as i128;
    assert(0 <= count * squares <= 1_040_400 * (count * count) && 0 <= sum * sum <= 1_040_400 * (
        count * count) && 0 < count * count <= 0xffff_ffff * 0xffff_ffff) by (nonlinear_arith)
        requires
            0 < count <= 0xffff_ffff,
            -1020 * count <= sum <= 1020 * count,
            0 <= squares <= 1_040_400 * count,
    ;
    let denominator: i128 = count * count;
    let scaled: i128 = (count * squares - sum * sum) * 1_000_000;
    proof {
        lemma_div_upper_bound(scaled as int, denominator as int, 1_040_400_000_000);
        lemma_div_upper_bound(
            scaled + denominator - 1,
            denominator as int,
            1_040_400_000_001,
        );
    }
    ((scaled + denominator - 1) / denominator) as u64
}

/// Blur detector using multiple algorithms. Both thresholds are in millionths.
pub struct BlurDetector {
    pub threshold_variance: u64,
    pub threshold_gradient: u64,
}

impl Default for BlurDetector {
    fn default() -> (detector: Self)
        ensures
            detector.threshold_variance == 200_000_000,
            detector.threshold_gradient == 50_000_000,
    {
        Self { threshold_variance: 200_000_000, threshold_gradient: 50_000_000 }
    }
}

impl BlurDetector {
    /// Create new blur detector with custom thresholds.
    pub fn new(threshold_variance: u64, threshold_gradient: u64) -> (detector: Self)
        ensures
            detector.threshold_variance == threshold_variance,
            detector.threshold_gradient == threshold_gradient,
    {
        Self { threshold_variance, threshold_gradient }
    }

    /// The metrics of a frame with the given pixel buffer and dimensions.
    pub open spec fn spec_analyze(data: Seq<u8>, width: int, height: int) -> BlurMetrics {
        let gray = grayscale(data);
        let variance = spec_laplacian_variance(gray, width, height) as u64;
        let level = BlurLevel::spec_from_variance(variance);
        BlurMetrics {
            variance,
            gradient_magnitude: spec_sobel_gradient(gray, width, height) as u64,
            edge_density: spec_edge_density(gray, width, height) as u64,
            blur_level: level,
            quality_score: level.spec_quality_score(),
        }
    }

    /// Analyze frame for blur.
    pub fn analyze_frame(&self, frame: &CameraFrame) -> (metrics: BlurMetrics)
        requires
            frame.well_formed(),
        ensures
            metrics == Self::spec_analyze(frame.data@, frame.width as int, frame.height as int),
            metrics.edge_density <= 1_000_000,
            metrics.quality_score <= 1_000_000,
    {
        let grayscale = self.rgb_to_grayscale(frame.data.as_slice(), frame.width, frame.height);
        let variance = self.calculate_laplacian_variance(
            grayscale.as_slice(),
            frame.width,
            frame.height,
        );
        let gradient_magnitude = self.calculate_sobel_gradient(
            grayscale.as_slice(),
            frame.width,
            frame.height,
        );
        let edge_density = self.calculate_edge_density(
            grayscale.as_slice(),
            frame.width,
            frame.height,
        );
        let blur_level = BlurLevel::from_variance(variance);
        let quality_score = blur_level.quality_score();
        BlurMetrics { variance, gradient_magnitude, edge_density, blur_level, quality_score }
    }

    /// Convert RGB to grayscale, one value for each three bytes.
    pub fn rgb_to_grayscale(&self, rgb_data: &[u8], _width: u32, _height: u32) -> (gray: Vec<u8>)
        requires
            rgb_data@.len() % 3 == 0,
        ensures
            gray@ == grayscale(rgb_data@),
    {
        let len: usize = rgb_data.len();
        let pixels: usize = len / 3;
        let mut gray: Vec<u8> = Vec::with_capacity(pixels);
        let mut p: usize = 0;
        while p < pixels
            invariant
                len == rgb_data@.len(),
                len % 3 == 0,
                pixels == len / 3,
                p <= pixels,
                gray@.len() == p,
                forall|j: int| 0 <= j < p ==> gray@[j] == #[trigger] grayscale(rgb_data@)[j],
            decreases pixels - p,
        {
            let i: usize = 3 * p;
            let r: u32 = rgb_data[i] as u32;
            let g: u32 = rgb_data[i + 1] as u32;
            let b: u32 = rgb_data[i + 2] as u32;
            let value: u32 = (299 * r + 587 * g + 114 * b) / 1000;
            gray.push(value as u8);
            p = p + 1;
        }
        gray
    }

    /// Calculate Laplacian variance for blur detection, in millionths.
    pub fn calculate_laplacian_variance(&self, grayscale: &[u8], width: u32, height: u32) -> (variance:
        u64)
        requires
            grayscale@.len() == width * height,
            width * height <= u32::MAX,
        ensures
            variance == spec_laplacian_variance(grayscale@, width as int, height as int),
            variance <= 1_040_400_000_000,
    {
        if width < 3 || height < 3 {
            return 0;
        }
        let w: usize = width as usize;
        let h: usize = height as usize;
        let ghost f = laplacian_map(grayscale@, w as int);
        let ghost f2 = laplacian_squared_map(grayscale@, w as int);
        proof {
            lemma_interior_fits(w as int, h as int);
        }
        let mut sum: i64 = 0;
        let mut squares: u64 = 0;
        let mut count: u64 = 0;
        let mut y: usize = 1;
        while y < h - 1
            invariant
                3 <= w,
                3 <= h,
                1 <= y <= h - 1,
                grayscale@.len() == w * h,
                (h - 2) * (w - 2) <= w * h <= u32::MAX,
                forall|r: int| 1 <= r <= h - 2 ==> (#[trigger] (r + 2)) * w <= w * h,
                f == laplacian_map(grayscale@, w as int),
                f2 == laplacian_squared_map(grayscale@, w as int),
                count == (y - 1) * (w - 2),
                sum == grid_sum(f, w - 2, y - 1),
                squares == grid_sum(f2, w - 2, y - 1),
                -1020 * count <= sum <= 1020 * count,
                squares <= 1_040_400 * count,
            decreases h - y,
        {
            proof {
                lemma_row_offsets(w - 2, h - 2, y as int);
            }
            let ghost row_start = count;
            let mut x: usize = 1;
            while x < w - 1
                invariant
                    3 <= w,
                    1 <= x <= w - 1,
                    1 <= y <= h - 2,
                    grayscale@.len() == w * h,
                    (y + 2) * w <= w * h,
                    row_start + (w - 2) <= (h - 2) * (w - 2) <= u32::MAX,
                    f == laplacian_map(grayscale@, w as int),
                    f2 == laplacian_squared_map(grayscale@, w as int),
                    count == row_start + (x - 1),
                    sum == grid_sum(f, w - 2, y - 1) + row_sum(f, y as int, x - 1),
                    squares == grid_sum(f2, w - 2, y - 1) + row_sum(f2, y as int, x - 1),
                    -1020 * count <= sum <= 1020 * count,
                    squares <= 1_040_400 * count,
                decreases w - x,
            {
                let win = Window::read(grayscale, w, x, y);
                let v: i32 = win.laplacian();
                assert(0 <= v * v <= 1_040_400) by (nonlinear_arith)
                    requires
                        -1020 <= v <= 1020,
                ;
                sum = sum + v as i64;
                squares = squares + (v * v) as u64;
                count = count + 1;
                x = x + 1;
            }
            y = y + 1;
        }
        proof {
            assert forall|x: int, y: int| 1 <= x <= w - 2 && 1 <= y <= h - 2 implies #[trigger] f2(
                x,
                y,
            ) == f(x, y) * f(x, y) by {}
            lemma_square_of_grid_sum(f, f2, w - 2, h - 2);
        }
        variance_from_moments(count, sum, squares)
    }

    /// Calculate Sobel gradient magnitude: the mean over the interior, in millionths.
    pub fn calculate_sobel_gradient(&self, grayscale: &[u8], width: u32, height: u32) -> (gradient:
        u64)
        requires
            grayscale@.len() == width * height,
            width * height <= u32::MAX,
        ensures
            gradient == spec_sobel_gradient(grayscale@, width as int, height as int),
    {
        if width < 3 || height < 3 {
            return 0;
        }
        let w: usize = width as usize;
        let h: usize = height as usize;
        let ghost f = gradient_map(grayscale@, w as int);
        proof {
            lemma_interior_fits(w as int, h as int);
        }
        let mut sum: u128 = 0;
        let mut count: u64 = 0;
        let mut y: usize = 1;
        while y < h - 1
            invariant
                3 <= w,
                3 <= h,
                1 <= y <= h - 1,
                grayscale@.len() == w * h,
                (h - 2) * (w - 2) <= w * h <= u32::MAX,
                forall|r: int| 1 <= r <= h - 2 ==> (#[trigger] (r + 2)) * w <= w * h,
                f == gradient_map(grayscale@, w as int),
                count == (y - 1) * (w - 2),
                sum == grid_sum(f, w - 2, y - 1),
                sum <= 0xffff_ffff_ffff_ffff * count,
            decreases h - y,
        {
            proof {
                lemma_row_offsets(w - 2, h - 2, y as int);
            }
            let ghost row_start = count;
            let mut x: usize = 1;
            while x < w - 1
                invariant
                    3 <= w,
                    1 <= x <= w - 1,
                    1 <= y <= h - 2,
                    grayscale@.len() == w * h,
                    (y + 2) * w <= w * h,
                    row_start + (w - 2) <= (h - 2) * (w - 2) <= u32::MAX,
                    f == gradient_map(grayscale@, w as int),
                    count == row_start + (x - 1),
                    sum == grid_sum(f, w - 2, y - 1) + row_sum(f, y as int, x - 1),
                    sum <= 0xffff_ffff_ffff_ffff * count,
                decreases w - x,
            {
                let win = Window::read(grayscale, w, x, y);
                let m: u64 = win.gradient_magnitude();
                sum = sum + m as u128;
                count = count + 1;
                x = x + 1;
            }
            y = y + 1;
        }
        proof {
            lemma_div_upper_bound(sum as int, count as int, 0xffff_ffff_ffff_ffff);
        }
        (sum / (count as u128)) as u64
    }

    /// Calculate edge density using simple threshold: the share of interior
    /// pixels with a neighbour more than 50 grey levels away, in millionths.
    pub fn calculate_edge_density(&self, grayscale: &[u8], width: u32, height: u32) -> (density:
        u64)
        requires
            grayscale@.len() == width * height,
            width * height <= u32::MAX,
        ensures
            density == spec_edge_density(grayscale@, width as int, height as int),
            density <= 1_000_000,
    {
        if width < 3 || height < 3 {
            return 0;
        }
        let w: usize = width as usize;
        let h: usize = height as usize;
        let ghost f = edge_map(grayscale@, w as int, 50);
        proof {
            lemma_interior_fits(w as int, h as int);
        }
        let mut edges: u64 = 0;
        let mut count: u64 = 0;
        let mut y: usize = 1;
        while y < h - 1
            invariant
                3 <= w,
                3 <= h,
                1 <= y <= h - 1,
                grayscale@.len() == w * h,
                (h - 2) * (w - 2) <= w * h <= u32::MAX,
                forall|r: int| 1 <= r <= h - 2 ==> (#[trigger] (r + 2)) * w <= w * h,
                f == edge_map(grayscale@, w as int, 50),
                count == (y - 1) * (w - 2),
                edges == grid_sum(f, w - 2, y - 1),
                edges <= count,
            decreases h - y,
        {
            proof {
                lemma_row_offsets(w - 2, h - 2, y as int);
            }
            let ghost row_start = count;
            let mut x: usize = 1;
            while x < w - 1
                invariant
                    3 <= w,
                    1 <= x <= w - 1,
                    1 <= y <= h - 2,
                    grayscale@.len() == w * h,
                    (y + 2) * w <= w * h,
                    row_start + (w - 2) <= (h - 2) * (w - 2) <= u32::MAX,
                    f == edge_map(grayscale@, w as int, 50),
                    count == row_start + (x - 1),
                    edges == grid_sum(f, w - 2, y - 1) + row_sum(f, y as int, x - 1),
                    edges <= count,
                decreases w - x,
            {
                let win = Window::read(grayscale, w, x, y);
                let edge: bool = win.is_edge(50);
                if edge {
                    edges = edges + 1;
                }
                count = count + 1;
                x = x + 1;
            }
            y = y + 1;
        }
        proof {
            lemma_div_upper_bound(edges * 1_000_000, count as int, 1_000_000);
        }
        edges * 1_000_000 / count
    }

    /// Check if frame meets minimum quality threshold: both the variance
    /// and the gradient magnitude lie above their thresholds.
    pub fn is_acceptable_quality(&self, metrics: &BlurMetrics) -> (acceptable: bool)
        ensures
            acceptable == (metrics.variance > self.threshold_variance
                && metrics.gradient_magnitude > self.threshold_gradient),
    {
        metrics.variance > self.threshold_variance && metrics.gradient_magnitude
            > self.threshold_gradient
    }
}

/// The spread of the Laplacian response is never negative.
pub proof fn lemma_laplacian_spread_is_nonnegative(gray: Seq<u8>, width: int, height: int)
    ensures
        laplacian_spread(gray, width, height) >= 0,
{
    if width >= 3 && height >= 3 {
        let f = laplacian_map(gray, width);
        let f2 = laplacian_squared_map(gray, width);
        assert forall|x: int, y: int|
            1 <= x <= width - 2 && 1 <= y <= height - 2 implies #[trigger] f2(x, y) == f(x, y) * f(
            x,
            y,
        ) by {}
        lemma_square_of_grid_sum(f, f2, width - 2, height - 2);
    } else {
        assert(0 * 0 - 0 * 0 == 0) by (nonlinear_arith);
    }
}

/// Rounding the variance up loses nothing at a breakpoint: the variance in
/// millionths exceeds `t` whole units exactly when the true variance,
/// the spread divided by the square of the number `n` of interior
/// pixels, exceeds `t`.
pub proof fn lemma_variance_threshold_is_exact(gray: Seq<u8>, width: int, height: int, t: int)
    requires
        3 <= width,
        3 <= height,
        0 <= t,
    ensures
        spec_laplacian_variance(gray, width, height) > t * 1_000_000 <==> laplacian_spread(
            gray,
            width,
            height,
        ) > t * (interior_count(width, height) * interior_count(width, height)),
{
    let n = interior_count(width, height);
    let q = laplacian_spread(gray, width, height);
    let d = n * n;
    lemma_interior_fits(width, height);
    lemma_laplacian_spread_is_nonnegative(gray, width, height);
    assert(0 < d) by (nonlinear_arith)
        requires
            d == n * n,
            0 < n,
    ;
    lemma_ceil_div_is_least(q * 1_000_000, d, t * 1_000_000);
    assert((t * 1_000_000) * d == (t * d) * 1_000_000) by (nonlinear_arith);
}

/// Every window of an interior pixel lies inside the image.
proof fn lemma_window_in_image(width: int, height: int, x: int, y: int)
    requires
        1 <= x <= width - 2,
        1 <= y <= height - 2,
    ensures
        0 <= (y - 1) * width + (x - 1),
        (y + 1) * width + (x + 1) < width * height,
        (y - 1) * width + width == y * width,
        y * width + width == (y + 1) * width,
{
    assert((y - 1) * width + width == y * width) by (nonlinear_arith);
    assert(y * width + width == (y + 1) * width) by (nonlinear_arith);
    assert(0 <= (y - 1) * width) by (nonlinear_arith)
        requires
            1 <= y,
            0 <= width,
    ;
    assert((y + 2) * width <= width * height) by (nonlinear_arith)
        requires
            y + 2 <= height,
            0 <= width,
    ;
    assert((y + 2) * width == (y + 1) * width + width) by (nonlinear_arith);
}

/// A uniformly flat frame, one in which every pixel has the same colour,
/// has Laplacian variance zero and is classified as very blurry.
pub proof fn lemma_flat_frame_is_very_blurry(frame: CameraFrame)
    requires
        frame.well_formed(),
        forall|p: int, k: int|
            0 <= p < frame.width * frame.height && 0 <= k < 3 ==> #[trigger] frame.data@[3 * p + k]
                == frame.data@[k],
    ensures
        BlurDetector::spec_analyze(
            frame.data@,
            frame.width as int,
            frame.height as int,
        ).variance == 0,
        BlurDetector::spec_analyze(
            frame.data@,
            frame.width as int,
            frame.height as int,
        ).blur_level == BlurLevel::VeryBlurry,
{
    let w = frame.width as int;
    let h = frame.height as int;
    let data = frame.data@;
    let gray = grayscale(data);
    let level = gray_of(data[0], data[1], data[2]) as u8;
    assert forall|i: int| 0 <= i < w * h implies #[trigger] gray[i] == level by {
        assert(data[3 * i + 0] == data[0]);
        assert(data[3 * i + 1] == data[1]);
        assert(data[3 * i + 2] == data[2]);
    }
    if w >= 3 && h >= 3 {
        let f = laplacian_map(gray, w);
        let f2 = laplacian_squared_map(gray, w);
        assert forall|x: int, y: int| 1 <= x <= w - 2 && 1 <= y <= h - 2 implies 0 <= #[trigger] f(
            x,
            y,
        ) <= 0 by {
            lemma_window_in_image(w, h, x, y);
        }
        assert forall|x: int, y: int| 1 <= x <= w - 2 && 1 <= y <= h - 2 implies 0 <= #[trigger] f2(
            x,
            y,
        ) <= 0 by {
            assert(f(x, y) == 0);
        }
        lemma_grid_sum_bounds(f, w - 2, h - 2, 0, 0);
        lemma_grid_sum_bounds(f2, w - 2, h - 2, 0, 0);
        assert((h - 2) * (w - 2) * 0 == 0) by (nonlinear_arith);
        let n = interior_count(w, h);
        lemma_interior_fits(w, h);
        assert((n * 0 - 0 * 0) * 1_000_000 == 0 && 0 < n * n) by (nonlinear_arith)
            requires
                0 < n,
        ;
        lemma_div_upper_bound(0, n * n, 0);
        lemma_ceil_div_is_least(0, n * n, -1);
    }
}

} // verus!
