//! Fixed-point arithmetic in millionths, finite sums and integer square roots.

use vstd::prelude::*;

verus! {

/// The sum `f(0) + f(1) + ... + f(n - 1)`; zero when `n <= 0`.
pub open spec fn sum_to(n: int, f: spec_fn(int) -> int) -> int
    decreases n,
{
    if n <= 0 {
        0
    } else {
        sum_to(n - 1, f) + f(n - 1)
    }
}

/// A sum whose terms all lie in `[lo, hi]` lies in `[n * lo, n * hi]`.
pub proof fn lemma_sum_to_bounds(n: int, f: spec_fn(int) -> int, lo: int, hi: int)
    requires
        0 <= n,
        forall|i: int| 0 <= i < n ==> lo <= #[trigger] f(i) <= hi,
    ensures
        n * lo <= sum_to(n, f) <= n * hi,
    decreases n,
{
    if n > 0 {
        lemma_sum_to_bounds(n - 1, f, lo, hi);
        assert(n * lo == (n - 1) * lo + lo) by (nonlinear_arith);
        assert(n * hi == (n - 1) * hi + hi) by (nonlinear_arith);
    } else {
        assert(n * lo == 0 && n * hi == 0) by (nonlinear_arith)
            requires
                n == 0,
        ;
    }
}

/// Two sums over the same range with equal terms are equal.
pub proof fn lemma_sum_to_congruence(n: int, f: spec_fn(int) -> int, g: spec_fn(int) -> int)
    requires
        forall|i: int| 0 <= i < n ==> #[trigger] f(i) == g(i),
    ensures
        sum_to(n, f) == sum_to(n, g),
    decreases n,
{
    if n > 0 {
        lemma_sum_to_congruence(n - 1, f, g);
    }
}

/// Changing one term of a sum by `delta` changes the sum by `delta`.
pub proof fn lemma_sum_to_update(
    n: int,
    f: spec_fn(int) -> int,
    g: spec_fn(int) -> int,
    k: int,
    delta: int,
)
    requires
        0 <= k < n,
        forall|i: int| 0 <= i < n && i != k ==> #[trigger] f(i) == g(i),
        g(k) == f(k) + delta,
    ensures
        sum_to(n, g) == sum_to(n, f) + delta,
    decreases n,
{
    if k == n - 1 {
        lemma_sum_to_congruence(n - 1, f, g);
    } else {
        lemma_sum_to_update(n - 1, f, g, k, delta);
    }
}

/// A sum of one constant is that constant times the number of terms.
pub proof fn lemma_sum_to_constant(n: int, f: spec_fn(int) -> int, c: int)
    requires
        0 <= n,
        forall|i: int| 0 <= i < n ==> #[trigger] f(i) == c,
    ensures
        sum_to(n, f) == n * c,
    decreases n,
{
    if n > 0 {
        lemma_sum_to_constant(n - 1, f, c);
        assert(n * c == (n - 1) * c + c) by (nonlinear_arith);
    } else {
        assert(n * c == 0) by (nonlinear_arith)
            requires
                n == 0,
        ;
    }
}

/// The largest of `f(0), ..., f(n - 1)` and `floor`.
pub open spec fn largest_to(n: int, f: spec_fn(int) -> int, floor: int) -> int
    decreases n,
{
    if n <= 0 {
        floor
    } else if f(n - 1) > largest_to(n - 1, f, floor) {
        f(n - 1)
    } else {
        largest_to(n - 1, f, floor)
    }
}

/// The smallest of `f(0), ..., f(n - 1)` and `ceiling`.
pub open spec fn smallest_to(n: int, f: spec_fn(int) -> int, ceiling: int) -> int
    decreases n,
{
    if n <= 0 {
        ceiling
    } else if f(n - 1) < smallest_to(n - 1, f, ceiling) {
        f(n - 1)
    } else {
        smallest_to(n - 1, f, ceiling)
    }
}

/// The integer square root: the largest `r` with `r * r <= n`.
pub open spec fn sqrt_floor(n: nat) -> nat
    decreases n,
{
    if n == 0 {
        0
    } else {
        let r = sqrt_floor((n - 1) as nat);
        if (r + 1) * (r + 1) <= n {
            r + 1
        } else {
            r
        }
    }
}

/// `sqrt_floor(n)` is a root: its square is at most `n`, the next square is above `n`.
pub proof fn lemma_sqrt_floor_is_root(n: nat)
    ensures
        sqrt_floor(n) * sqrt_floor(n) <= n < (sqrt_floor(n) + 1) * (sqrt_floor(n) + 1),
    decreases n,
{
    if n > 0 {
        let r = sqrt_floor((n - 1) as nat);
        lemma_sqrt_floor_is_root((n - 1) as nat);
        let s = sqrt_floor(n);
        if (r + 1) * (r + 1) <= n {
            assert(s * s <= n < (s + 1) * (s + 1)) by (nonlinear_arith)
                requires
                    s == r + 1,
                    (r + 1) * (r + 1) <= n,
                    n - 1 < (r + 1) * (r + 1),
            ;
        } else {
            assert(s * s <= n < (s + 1) * (s + 1)) by (nonlinear_arith)
                requires
                    s == r,
                    r * r <= n - 1,
                    n < (r + 1) * (r + 1),
            ;
        }
    } else {
        let s = sqrt_floor(n);
        assert(s * s <= n < (s + 1) * (s + 1)) by (nonlinear_arith)
            requires
                s == 0,
                n == 0,
        ;
    }
}

/// Only one number has the property of [`lemma_sqrt_floor_is_root`].
pub proof fn lemma_sqrt_floor_unique(n: nat, r: nat)
    requires
        r * r <= n < (r + 1) * (r + 1),
    ensures
        r == sqrt_floor(n),
{
    let s = sqrt_floor(n);
    lemma_sqrt_floor_is_root(n);
    if r < s {
        assert((r + 1) * (r + 1) <= s * s) by (nonlinear_arith)
            requires
                r + 1 <= s,
        ;
    } else if s < r {
        assert((s + 1) * (s + 1) <= r * r) by (nonlinear_arith)
            requires
                s + 1 <= r,
        ;
    }
}

/// Computes the integer square root of `n` by bisection.
pub fn isqrt(n: u128) -> (r: u128)
    ensures
        r == sqrt_floor(n as nat),
        r * r <= n < (r + 1) * (r + 1),
        r < 0x1_0000_0000_0000_0000,
{
    let mut lo: u128 = 0;
    let mut hi: u128 = if n < 0x1_0000_0000_0000_0000 {
        0x1_0000_0000
    } else {
        0x1_0000_0000_0000_0000
    };
    assert(n < hi * hi) by (nonlinear_arith)
        requires
            n < 0x1_0000_0000_0000_0000_0000_0000_0000_0000int,
            n < 0x1_0000_0000_0000_0000int ==> hi == 0x1_0000_0000int,
            n >= 0x1_0000_0000_0000_0000int ==> hi == 0x1_0000_0000_0000_0000int,
    ;
    while hi - lo > 1
        invariant
            lo < hi <= 0x1_0000_0000_0000_0000,
            lo * lo <= n < hi * hi,
        decreases hi - lo,
    {
        let mid: u128 = lo + (hi - lo) / 2;
        assert(mid * mid <= 0xffff_ffff_ffff_ffff * 0xffff_ffff_ffff_ffff) by (nonlinear_arith)
            requires
                0 <= mid <= 0xffff_ffff_ffff_ffff,
        ;
        if mid * mid <= n {
            lo = mid;
        } else {
            hi = mid;
        }
    }
    proof {
        lemma_sqrt_floor_unique(n as nat, lo as nat);
    }
    lo
}

/// `a / b` rounded up.
pub open spec fn ceil_div(a: int, b: int) -> int
    recommends
        0 <= a,
        0 < b,
{
    (a + b - 1) / b
}

/// The rounded-up quotient is the least `q` with `a <= q * b`.
pub proof fn lemma_ceil_div_is_least(a: int, b: int, t: int)
    requires
        0 <= a,
        0 < b,
    ensures
        a <= ceil_div(a, b) * b,
        a <= t * b <==> ceil_div(a, b) <= t,
{
    let q = ceil_div(a, b);
    vstd::arithmetic::div_mod::lemma_fundamental_div_mod(a + b - 1, b);
    vstd::arithmetic::div_mod::lemma_mod_bound(a + b - 1, b);
    assert(b * q == q * b) by (nonlinear_arith);
    if q <= t {
        assert(q * b <= t * b) by (nonlinear_arith)
            requires
                q <= t,
                0 < b,
        ;
    } else {
        assert(t * b <= (q - 1) * b) by (nonlinear_arith)
            requires
                t <= q - 1,
                0 < b,
        ;
        assert((q - 1) * b == q * b - b) by (nonlinear_arith);
    }
}

/// A quotient is at most `m` when the dividend is at most `m * b`.
pub proof fn lemma_div_upper_bound(a: int, b: int, m: int)
    requires
        0 <= a <= m * b,
        0 < b,
    ensures
        0 <= a / b <= m,
        ceil_div(a, b) <= m,
{
    lemma_ceil_div_is_least(a, b, m);
    vstd::arithmetic::div_mod::lemma_fundamental_div_mod(a, b);
    vstd::arithmetic::div_mod::lemma_mod_bound(a, b);
    let q = a / b;
    if q > m {
        assert(b * q >= b * (m + 1)) by (nonlinear_arith)
            requires
                q >= m + 1,
                0 < b,
        ;
        assert(b * (m + 1) == m * b + b) by (nonlinear_arith);
    }
    if q < 0 {
        assert(b * q <= -b) by (nonlinear_arith)
            requires
                q <= -1,
                0 < b,
        ;
    }
}

/// A quotient rounded down lies below `t` exactly when the dividend
/// lies below `t * b`.
pub proof fn lemma_floor_div_threshold(a: int, b: int, t: int)
    requires
        0 < b,
    ensures
        a / b < t <==> a < t * b,
{
    vstd::arithmetic::div_mod::lemma_fundamental_div_mod(a, b);
    vstd::arithmetic::div_mod::lemma_mod_bound(a, b);
    let q = a / b;
    if q < t {
        assert(b * q + b <= t * b) by (nonlinear_arith)
            requires
                q + 1 <= t,
                0 < b,
        ;
    } else {
        assert(t * b <= b * q) by (nonlinear_arith)
            requires
                t <= q,
                0 < b,
        ;
    }
}

/// The sum of `f(x, y)` over `x` in `1..=cols`, for one row `y`.
pub open spec fn row_sum(f: spec_fn(int, int) -> int, y: int, cols: int) -> int
    decreases cols,
{
    if cols <= 0 {
        0
    } else {
        row_sum(f, y, cols - 1) + f(cols, y)
    }
}

/// The sum of `f(x, y)` over `x` in `1..=cols` and `y` in `1..=rows`.
pub open spec fn grid_sum(f: spec_fn(int, int) -> int, cols: int, rows: int) -> int
    decreases rows,
{
    if rows <= 0 {
        0
    } else {
        grid_sum(f, cols, rows - 1) + row_sum(f, rows, cols)
    }
}

/// A row sum whose terms all lie in `[lo, hi]` lies in `[cols * lo, cols * hi]`.
pub proof fn lemma_row_sum_bounds(f: spec_fn(int, int) -> int, y: int, cols: int, lo: int, hi: int)
    requires
        0 <= cols,
        forall|x: int| 1 <= x <= cols ==> lo <= #[trigger] f(x, y) <= hi,
    ensures
        cols * lo <= row_sum(f, y, cols) <= cols * hi,
    decreases cols,
{
    if cols > 0 {
        lemma_row_sum_bounds(f, y, cols - 1, lo, hi);
        assert(cols * lo == (cols - 1) * lo + lo) by (nonlinear_arith);
        assert(cols * hi == (cols - 1) * hi + hi) by (nonlinear_arith);
    } else {
        assert(cols * lo == 0 && cols * hi == 0) by (nonlinear_arith)
            requires
                cols == 0,
        ;
    }
}

/// A grid sum whose terms all lie in `[lo, hi]` lies between `lo` and `hi`
/// times the number of cells.
pub proof fn lemma_grid_sum_bounds(
    f: spec_fn(int, int) -> int,
    cols: int,
    rows: int,
    lo: int,
    hi: int,
)
    requires
        0 <= cols,
        0 <= rows,
        forall|x: int, y: int| 1 <= x <= cols && 1 <= y <= rows ==> lo <= #[trigger] f(x, y) <= hi,
    ensures
        rows * cols * lo <= grid_sum(f, cols, rows) <= rows * cols * hi,
    decreases rows,
{
    if rows > 0 {
        lemma_grid_sum_bounds(f, cols, rows - 1, lo, hi);
        lemma_row_sum_bounds(f, rows, cols, lo, hi);
        assert(rows * cols * lo == (rows - 1) * cols * lo + cols * lo) by (nonlinear_arith);
        assert(rows * cols * hi == (rows - 1) * cols * hi + cols * hi) by (nonlinear_arith);
    } else {
        assert(rows * cols * lo == 0 && rows * cols * hi == 0) by (nonlinear_arith)
            requires
                rows == 0,
        ;
    }
}

/// Row `y` of a grid with `rows` rows starts after `(y - 1) * cols` cells
/// and ends within the grid.
pub proof fn lemma_row_offsets(cols: int, rows: int, y: int)
    requires
        0 <= cols,
        1 <= y <= rows,
    ensures
        (y - 1) * cols + cols == y * cols,
        0 <= (y - 1) * cols,
        y * cols <= rows * cols,
{
    assert((y - 1) * cols + cols == y * cols) by (nonlinear_arith);
    assert(0 <= (y - 1) * cols) by (nonlinear_arith)
        requires
            0 <= cols,
            1 <= y,
    ;
    assert(y * cols <= rows * cols) by (nonlinear_arith)
        requires
            0 <= cols,
            y <= rows,
    ;
}

/// The square of `m * f(i) - c`, by index.
pub open spec fn shifted_squares(f: spec_fn(int) -> int, m: int, c: int) -> spec_fn(int) -> int {
    |i: int| (m * f(i) - c) * (m * f(i) - c)
}

/// One more term of a sum of shifted squares: with `q` and `s` the sums
/// of squares and of values so far, and `k` terms so far, the written-out
/// form goes on to `k + 1` terms.
proof fn lemma_shifted_square_step(m: int, c: int, q: int, s: int, v: int, k: int)
    ensures
        (m * v - c) * (m * v - c) >= 0,
        ((m * m) * q - 2 * ((m * c) * s) + k * (c * c)) + (m * v - c) * (m * v - c) == (m * m) * (q
            + v * v) - 2 * ((m * c) * (s + v)) + (k + 1) * (c * c),
{
    assert((m * v - c) * (m * v - c) >= 0) by (nonlinear_arith);
    assert((m * v - c) * (m * v - c) == (m * m) * (v * v) - 2 * ((m * c) * v) + c * c)
        by (nonlinear_arith);
    assert((m * m) * (q + v * v) == (m * m) * q + (m * m) * (v * v)) by (nonlinear_arith);
    assert((m * c) * (s + v) == (m * c) * s + (m * c) * v) by (nonlinear_arith);
    assert((k + 1) * (c * c) == k * (c * c) + c * c) by (nonlinear_arith);
}

/// Adding up two written-out sums of shifted squares.
proof fn lemma_shifted_squares_join(
    m: int,
    c: int,
    q: int,
    s: int,
    k: int,
    rq: int,
    rs: int,
    j: int,
)
    ensures
        ((m * m) * q - 2 * ((m * c) * s) + k * (c * c)) + ((m * m) * rq - 2 * ((m * c) * rs) + j * (
        c * c)) == (m * m) * (q + rq) - 2 * ((m * c) * (s + rs)) + (k + j) * (c * c),
{
    assert((m * m) * (q + rq) == (m * m) * q + (m * m) * rq) by (nonlinear_arith);
    assert((m * c) * (s + rs) == (m * c) * s + (m * c) * rs) by (nonlinear_arith);
    assert((k + j) * (c * c) == k * (c * c) + j * (c * c)) by (nonlinear_arith);
}

/// From the sum of the squares of `n * f(i) - s`, where `s` is the sum of
/// the `n` values and `q` the sum of their squares: `s * s <= n * q`.
proof fn lemma_square_of_sum_from_shifted(n: int, q: int, s: int)
    requires
        0 <= n,
        n == 0 ==> s == 0,
        (n * n) * q - 2 * ((n * s) * s) + n * (s * s) >= 0,
    ensures
        s * s <= n * q,
{
    if n > 0 {
        assert((n * s) * s == n * (s * s)) by (nonlinear_arith);
        assert((n * n) * q - n * (s * s) == n * (n * q - s * s)) by (nonlinear_arith);
        assert(n * q - s * s >= 0) by (nonlinear_arith)
            requires
                n > 0,
                n * (n * q - s * s) >= 0,
        ;
    } else {
        assert(s * s == 0 && n * q == 0) by (nonlinear_arith)
            requires
                s == 0,
                n == 0,
        ;
    }
}

/// The sum of the squares of `m * f(i) - c`, written out in the sum of
/// `f` and the sum of its squares `f2`.
proof fn lemma_sum_of_shifted_squares(
    n: int,
    f: spec_fn(int) -> int,
    f2: spec_fn(int) -> int,
    m: int,
    c: int,
)
    requires
        0 <= n,
        forall|i: int| 0 <= i < n ==> #[trigger] f2(i) == f(i) * f(i),
    ensures
        sum_to(n, shifted_squares(f, m, c)) == (m * m) * sum_to(n, f2) - 2 * ((m * c) * sum_to(
            n,
            f,
        )) + n * (c * c),
        sum_to(n, shifted_squares(f, m, c)) >= 0,
    decreases n,
{
    if n > 0 {
        lemma_sum_of_shifted_squares(n - 1, f, f2, m, c);
        assert(f2(n - 1) == f(n - 1) * f(n - 1));
        lemma_shifted_square_step(m, c, sum_to(n - 1, f2), sum_to(n - 1, f), f(n - 1), n - 1);
    } else {
        assert((m * m) * 0 - 2 * ((m * c) * 0) + 0 * (c * c) == 0) by (nonlinear_arith);
    }
}

/// The square of a sum of `n` numbers is at most `n` times the sum of
/// their squares, so a variance computed from the two sums is never negative.
pub proof fn lemma_square_of_sum(n: int, f: spec_fn(int) -> int, f2: spec_fn(int) -> int)
    requires
        0 <= n,
        forall|i: int| 0 <= i < n ==> #[trigger] f2(i) == f(i) * f(i),
    ensures
        sum_to(n, f) * sum_to(n, f) <= n * sum_to(n, f2),
{
    lemma_sum_of_shifted_squares(n, f, f2, n, sum_to(n, f));
    lemma_square_of_sum_from_shifted(n, sum_to(n, f2), sum_to(n, f));
}

/// The square of `m * f(x, y) - c`, by cell.
pub open spec fn shifted_cell_squares(f: spec_fn(int, int) -> int, m: int, c: int) -> spec_fn(
    int,
    int,
) -> int {
    |x: int, y: int| (m * f(x, y) - c) * (m * f(x, y) - c)
}

/// [`lemma_sum_of_shifted_squares`] for one row of a grid.
proof fn lemma_row_of_shifted_squares(
    f: spec_fn(int, int) -> int,
    f2: spec_fn(int, int) -> int,
    y: int,
    cols: int,
    m: int,
    c: int,
)
    requires
        0 <= cols,
        forall|x: int| 1 <= x <= cols ==> #[trigger] f2(x, y) == f(x, y) * f(x, y),
    ensures
        row_sum(shifted_cell_squares(f, m, c), y, cols) == (m * m) * row_sum(f2, y, cols) - 2 * ((m
            * c) * row_sum(f, y, cols)) + cols * (c * c),
        row_sum(shifted_cell_squares(f, m, c), y, cols) >= 0,
    decreases cols,
{
    if cols > 0 {
        lemma_row_of_shifted_squares(f, f2, y, cols - 1, m, c);
        assert(f2(cols, y) == f(cols, y) * f(cols, y));
        lemma_shifted_square_step(
            m,
            c,
            row_sum(f2, y, cols - 1),
            row_sum(f, y, cols - 1),
            f(cols, y),
            cols - 1,
        );
    } else {
        assert((m * m) * 0 - 2 * ((m * c) * 0) + 0 * (c * c) == 0) by (nonlinear_arith);
    }
}

/// [`lemma_sum_of_shifted_squares`] for a grid.
proof fn lemma_grid_of_shifted_squares(
    f: spec_fn(int, int) -> int,
    f2: spec_fn(int, int) -> int,
    cols: int,
    rows: int,
    m: int,
    c: int,
)
    requires
        0 <= cols,
        0 <= rows,
        forall|x: int, y: int|
            1 <= x <= cols && 1 <= y <= rows ==> #[trigger] f2(x, y) == f(x, y) * f(x, y),
    ensures
        grid_sum(shifted_cell_squares(f, m, c), cols, rows) == (m * m) * grid_sum(f2, cols, rows)
            - 2 * ((m * c) * grid_sum(f, cols, rows)) + (rows * cols) * (c * c),
        grid_sum(shifted_cell_squares(f, m, c), cols, rows) >= 0,
    decreases rows,
{
    if rows > 0 {
        lemma_grid_of_shifted_squares(f, f2, cols, rows - 1, m, c);
        lemma_row_of_shifted_squares(f, f2, rows, cols, m, c);
        lemma_shifted_squares_join(
            m,
            c,
            grid_sum(f2, cols, rows - 1),
            grid_sum(f, cols, rows - 1),
            (rows - 1) * cols,
            row_sum(f2, rows, cols),
            row_sum(f, rows, cols),
            cols,
        );
        assert((rows - 1) * cols + cols == rows * cols) by (nonlinear_arith);
    } else {
        assert(rows * cols == 0) by (nonlinear_arith)
            requires
                rows == 0,
        ;
        assert((m * m) * 0 - 2 * ((m * c) * 0) + 0 * (c * c) == 0) by (nonlinear_arith);
    }
}

/// [`lemma_square_of_sum`] for a grid of `rows * cols` cells.
pub proof fn lemma_square_of_grid_sum(
    f: spec_fn(int, int) -> int,
    f2: spec_fn(int, int) -> int,
    cols: int,
    rows: int,
)
    requires
        0 <= cols,
        0 <= rows,
        forall|x: int, y: int|
            1 <= x <= cols && 1 <= y <= rows ==> #[trigger] f2(x, y) == f(x, y) * f(x, y),
    ensures
        grid_sum(f, cols, rows) * grid_sum(f, cols, rows) <= (rows * cols) * grid_sum(
            f2,
            cols,
            rows,
        ),
{
    let n = rows * cols;
    let s = grid_sum(f, cols, rows);
    assert(0 <= n) by (nonlinear_arith)
        requires
            n == rows * cols,
            0 <= rows,
            0 <= cols,
    ;
    if n == 0 {
        assert(rows == 0 || cols == 0) by (nonlinear_arith)
            requires
                rows * cols == 0,
        ;
        lemma_grid_sum_bounds(f, cols, rows, 0, 0);
        assert(rows * cols * 0 == 0) by (nonlinear_arith);
    }
    lemma_grid_of_shifted_squares(f, f2, cols, rows, n, s);
    lemma_square_of_sum_from_shifted(n, grid_sum(f2, cols, rows), s);
}

} // verus!
