//! Statistical tests for entropy quality.
//!
//! Passing these tests is necessary but not sufficient for good entropy.

use vstd::prelude::*;
use crate::analysis::ratio::Ratio;
use crate::extraction::{byte_ones, lemma_byte_ones_bound, lemma_ones_in_bound, ones_in, RawBits};

verus! {

/// The largest sample, in bytes, whose statistics fit the arithmetic used
/// here.
pub const MAX_SAMPLE_BYTES: usize = 0x4000_0000;

/// Sum of the byte values of `s`.
pub open spec fn byte_sum(s: Seq<u8>) -> int
    decreases s.len(),
{
    if s.len() == 0 {
        0
    } else {
        byte_sum(s.drop_last()) + s.last()
    }
}

/// Deviation of byte `i` from the mean of `s`, scaled by the length of `s`:
/// `len * s[i] - sum`.
pub open spec fn deviation(s: Seq<u8>, i: int) -> int {
    s.len() * s[i] - byte_sum(s)
}

/// Sum of the squares of the first `k` scaled deviations.
pub open spec fn square_deviations(s: Seq<u8>, k: int) -> int
    decreases k,
{
    if k <= 0 {
        0
    } else {
        square_deviations(s, k - 1) + deviation(s, k - 1) * deviation(s, k - 1)
    }
}

/// Sum of the products of the first `k` pairs of neighbouring scaled
/// deviations.
pub open spec fn lag_products(s: Seq<u8>, k: int) -> int
    decreases k,
{
    if k <= 0 {
        0
    } else {
        lag_products(s, k - 1) + deviation(s, k - 1) * deviation(s, k)
    }
}

/// Bit bias of `s`: the share of set bits, less one half. Zero for the
/// empty sequence.
pub open spec fn bias_of(s: Seq<u8>) -> Ratio {
    if s.len() == 0 {
        Ratio { num: 0, den: 1 }
    } else {
        Ratio { num: (2 * ones_in(s) - 8 * s.len()) as i128, den: (16 * s.len()) as i128 }
    }
}

/// Population variance of the byte values of `s`. Zero for the empty
/// sequence.
pub open spec fn variance_of(s: Seq<u8>) -> Ratio {
    if s.len() == 0 {
        Ratio { num: 0, den: 1 }
    } else {
        Ratio {
            num: square_deviations(s, s.len() as int) as i128,
            den: (s.len() * s.len() * s.len()) as i128,
        }
    }
}

/// Lag-1 autocorrelation of the byte values of `s`: the covariance of
/// neighbours over the variance, and one where the variance is zero.
pub open spec fn autocorrelation_of(s: Seq<u8>) -> Ratio {
    if square_deviations(s, s.len() as int) == 0 {
        Ratio { num: 1, den: 1 }
    } else {
        Ratio {
            num: lag_products(s, s.len() - 1) as i128,
            den: square_deviations(s, s.len() as int) as i128,
        }
    }
}

/// Statistical test results for one sample.
#[derive(Clone, Copy, Debug, PartialEq, Eq)]
pub struct StatisticalTests {
    /// Bit bias (deviation of the share of set bits from one half).
    pub bit_bias: Ratio,
    /// Byte-level population variance.
    pub variance: Ratio,
    /// Lag-1 autocorrelation.
    pub autocorrelation: Ratio,
    /// Number of bytes analyzed.
    pub sample_size: usize,
}

impl StatisticalTests {
    /// The three ratios are well formed and of a size that the checks can
    /// work with: the bias and the autocorrelation lie in `[-1, 1]`, the
    /// variance in `[0, 255 * 255]`. The statistics of every sample are.
    pub open spec fn wf(&self) -> bool {
        &&& self.bit_bias.within(1)
        &&& self.variance.within(65025)
        &&& self.variance.num >= 0
        &&& self.autocorrelation.within(1)
    }

    /// The statistics of the byte sequence `s`.
    pub open spec fn of(s: Seq<u8>) -> StatisticalTests {
        StatisticalTests {
            bit_bias: bias_of(s),
            variance: variance_of(s),
            autocorrelation: autocorrelation_of(s),
            sample_size: s.len() as usize,
        }
    }

    /// Whether the results pass three loose sanity checks: a bias within a
    /// tenth of even, a variance above 100, an autocorrelation within one
    /// half.
    pub open spec fn reasonable(&self) -> bool {
        &&& self.bit_bias.magnitude().below(100_000)
        &&& self.variance.above(100_000_000)
        &&& self.autocorrelation.magnitude().below(500_000)
    }

    /// Runs all statistical tests on the raw bits.
    pub fn analyze(raw: &RawBits) -> (stats: Self)
        requires
            raw@.bytes.len() <= MAX_SAMPLE_BYTES,
        ensures
            stats == Self::of(raw@.bytes),
            stats.wf(),
    {
        let data = raw.data();
        let sum = compute_sum(data);
        Self {
            bit_bias: raw.bit_bias(),
            variance: compute_variance(data, sum),
            autocorrelation: compute_autocorrelation(data, sum),
            sample_size: data.len(),
        }
    }

    /// Returns true if the results look reasonable (no proof of quality).
    pub fn looks_reasonable(&self) -> (ok: bool)
        requires
            self.wf(),
        ensures
            ok == self.reasonable(),
    {
        let bias_ok = self.bit_bias.abs().is_below(100_000, 1);
        let variance_ok = self.variance.is_above(100_000_000, 65025);
        let autocorr_ok = self.autocorrelation.abs().is_below(500_000, 1);
        bias_ok && variance_ok && autocorr_ok
    }
}

/// Sum of the byte values.
fn compute_sum(data: &[u8]) -> (sum: u64)
    requires
        data@.len() <= MAX_SAMPLE_BYTES,
    ensures
        sum == byte_sum(data@),
{
    let mut sum: u64 = 0;
    let mut i: usize = 0;
    while i < data.len()
        invariant
            i <= data@.len() <= MAX_SAMPLE_BYTES,
            sum == byte_sum(data@.take(i as int)),
            sum <= 255 * i,
        decreases data@.len() - i,
    {
        proof {
            let next = data@.take(i + 1);
            assert(next.drop_last() == data@.take(i as int));
        }
        sum = sum + data[i] as u64;
        i = i + 1;
    }
    proof {
        assert(data@.take(i as int) == data@);
    }
    sum
}

/// Scaled deviation of byte `i` from the mean.
fn scaled_deviation(data: &[u8], sum: u64, i: usize) -> (d: i128)
    requires
        data@.len() <= MAX_SAMPLE_BYTES,
        sum == byte_sum(data@),
        i < data@.len(),
    ensures
        d == deviation(data@, i as int),
        -MAX_DEVIATION <= d <= MAX_DEVIATION,
{
    proof {
        lemma_deviation_bound(data@, i as int);
    }
    (data.len() as i128) * (data[i] as i128) - (sum as i128)
}

/// Population variance of the byte values.
fn compute_variance(data: &[u8], sum: u64) -> (variance: Ratio)
    requires
        data@.len() <= MAX_SAMPLE_BYTES,
        sum == byte_sum(data@),
    ensures
        variance == variance_of(data@),
        variance.within(65025),
        variance.num >= 0,
{
    let n = data.len();
    if n == 0 {
        return Ratio::zero();
    }
    let mut squares: i128 = 0;
    let mut i: usize = 0;
    while i < n
        invariant
            n == data@.len(),
            0 < n <= MAX_SAMPLE_BYTES,
            sum == byte_sum(data@),
            i <= n,
            squares == square_deviations(data@, i as int),
            0 <= squares <= i * MAX_SQUARE,
        decreases n - i,
    {
        let d = scaled_deviation(data, sum, i);
        proof {
            lemma_product_bound(d as int, d as int, MAX_DEVIATION as int);
            assert(d * d >= 0) by (nonlinear_arith);
        }
        squares = squares + d * d;
        i = i + 1;
    }
    proof {
        lemma_square_deviations_bound(data@, n as int);
        lemma_cube_bound(n as int);
        assert(n * n * n == n * (n * n)) by (nonlinear_arith);
    }
    let len = n as i128;
    Ratio { num: squares, den: len * len * len }
}

/// Lag-1 autocorrelation of the byte values.
fn compute_autocorrelation(data: &[u8], sum: u64) -> (autocorrelation: Ratio)
    requires
        data@.len() <= MAX_SAMPLE_BYTES,
        sum == byte_sum(data@),
    ensures
        autocorrelation == autocorrelation_of(data@),
        autocorrelation.within(1),
{
    let n = data.len();
    let mut squares: i128 = 0;
    let mut products: i128 = 0;
    let mut i: usize = 0;
    while i < n
        invariant
            n == data@.len(),
            n <= MAX_SAMPLE_BYTES,
            sum == byte_sum(data@),
            i <= n,
            squares == square_deviations(data@, i as int),
            0 <= squares <= i * MAX_SQUARE,
            i < n ==> products == lag_products(data@, i as int),
            i == n ==> products == lag_products(data@, n - 1),
            -(i * MAX_SQUARE) <= products <= i * MAX_SQUARE,
        decreases n - i,
    {
        let d = scaled_deviation(data, sum, i);
        proof {
            lemma_product_bound(d as int, d as int, MAX_DEVIATION as int);
            assert(d * d >= 0) by (nonlinear_arith);
        }
        squares = squares + d * d;
        if i + 1 < n {
            let next = scaled_deviation(data, sum, i + 1);
            proof {
                lemma_product_bound(d as int, next as int, MAX_DEVIATION as int);
            }
            products = products + d * next;
        }
        i = i + 1;
    }
    if squares == 0 {
        return Ratio::one();
    }
    proof {
        lemma_lag_products_bound(data@, n - 1);
        lemma_square_deviations_monotone(data@, n - 1);
    }
    Ratio { num: products, den: squares }
}

/// The largest magnitude of a scaled deviation: `255 * MAX_SAMPLE_BYTES`.
const MAX_DEVIATION: i128 = 273_804_165_120;

/// The square of [`MAX_DEVIATION`].
const MAX_SQUARE: i128 = 74_968_720_837_060_224_614_400;

/// The sum of a byte sequence is at most 255 per byte.
pub proof fn lemma_byte_sum_bound(s: Seq<u8>)
    ensures
        0 <= byte_sum(s) <= 255 * s.len(),
    decreases s.len(),
{
    if s.len() > 0 {
        lemma_byte_sum_bound(s.drop_last());
    }
}

/// A scaled deviation is at most `255 * len` in magnitude.
pub proof fn lemma_deviation_bound(s: Seq<u8>, i: int)
    requires
        0 <= i < s.len(),
    ensures
        -(255 * s.len()) <= deviation(s, i) <= 255 * s.len(),
{
    lemma_byte_sum_bound(s);
    let n = s.len() as int;
    let x = s[i] as int;
    assert(0 <= n * x <= 255 * n) by (nonlinear_arith)
        requires
            0 <= x <= 255,
            n >= 0,
    ;
}

/// The product of two numbers of magnitude at most `m` has magnitude at
/// most `m * m`.
proof fn lemma_product_bound(a: int, b: int, m: int)
    requires
        -m <= a <= m,
        -m <= b <= m,
    ensures
        -(m * m) <= a * b <= m * m,
{
    assert(-(m * m) <= a * b <= m * m) by (nonlinear_arith)
        requires
            -m <= a <= m,
            -m <= b <= m,
    ;
}

/// The cube of a sample length, times the largest variance and a million,
/// fits the arithmetic.
proof fn lemma_cube_bound(n: int)
    requires
        0 < n <= MAX_SAMPLE_BYTES,
    ensures
        0 < n * n <= i64::MAX,
        0 < n * n * n,
        65025 * (n * n * n) * 1_000_000 <= i128::MAX,
{
    assert(0 < n * n <= 0x4000_0000 * 0x4000_0000) by (nonlinear_arith)
        requires
            0 < n <= 0x4000_0000,
    ;
    assert(0 < n * n * n <= 0x4000_0000 * 0x4000_0000 * 0x4000_0000) by (nonlinear_arith)
        requires
            0 < n <= 0x4000_0000,
    ;
}

/// The sum of the first `k` squared deviations is not negative, and at most
/// `65025 * len * len` for each of them.
pub proof fn lemma_square_deviations_bound(s: Seq<u8>, k: int)
    requires
        0 <= k <= s.len(),
    ensures
        0 <= square_deviations(s, k) <= 65025 * (k * s.len() * s.len()),
    decreases k,
{
    let n = s.len() as int;
    if k > 0 {
        lemma_square_deviations_bound(s, k - 1);
        lemma_deviation_bound(s, k - 1);
        let d = deviation(s, k - 1);
        lemma_product_bound(d, d, 255 * n);
        assert(d * d >= 0) by (nonlinear_arith);
        assert(65025 * ((k - 1) * n * n) + (255 * n) * (255 * n) == 65025 * (k * n * n))
            by (nonlinear_arith);
    } else {
        assert(65025 * (k * n * n) == 0) by (nonlinear_arith)
            requires
                k == 0,
        ;
    }
}

/// Adding a squared deviation never lowers the sum.
pub proof fn lemma_square_deviations_monotone(s: Seq<u8>, k: int)
    requires
        0 <= k,
    ensures
        0 <= square_deviations(s, k) <= square_deviations(s, k + 1),
    decreases k,
{
    let d = deviation(s, k);
    assert(d * d >= 0) by (nonlinear_arith);
    if k > 0 {
        lemma_square_deviations_monotone(s, k - 1);
    }
}

/// Twice the sum of the first `k` products of neighbours is, in magnitude,
/// at most the sum of the first `k` squares plus the sum of the first
/// `k + 1`: no lag-1 autocorrelation lies outside `[-1, 1]`.
pub proof fn lemma_lag_products_bound(s: Seq<u8>, k: int)
    requires
        0 <= k,
    ensures
        -(square_deviations(s, k) + square_deviations(s, k + 1)) <= 2 * lag_products(s, k),
        2 * lag_products(s, k) <= square_deviations(s, k) + square_deviations(s, k + 1),
    decreases k,
{
    if k > 0 {
        lemma_lag_products_bound(s, k - 1);
        let a = deviation(s, k - 1);
        let b = deviation(s, k);
        assert(-(a * a + b * b) <= 2 * (a * b) <= a * a + b * b) by (nonlinear_arith);
    } else {
        let d = deviation(s, 0);
        assert(d * d >= 0) by (nonlinear_arith);
    }
}

/// Every byte of `s` is `c`.
pub open spec fn all_bytes_are(s: Seq<u8>, c: u8) -> bool {
    forall|i: int| 0 <= i < s.len() ==> s[i] == c
}

/// A sequence of equal bytes has the bits of one byte, once per byte.
pub proof fn lemma_ones_in_constant(s: Seq<u8>, c: u8)
    requires
        all_bytes_are(s, c),
    ensures
        ones_in(s) == s.len() * byte_ones(c),
    decreases s.len(),
{
    if s.len() > 0 {
        lemma_ones_in_constant(s.drop_last(), c);
        assert(s.len() * byte_ones(c) == (s.len() - 1) * byte_ones(c) + byte_ones(c))
            by (nonlinear_arith)
            requires
                s.len() > 0,
        ;
    }
}

/// A sequence of equal bytes sums to that byte, once per byte.
pub proof fn lemma_byte_sum_constant(s: Seq<u8>, c: u8)
    requires
        all_bytes_are(s, c),
    ensures
        byte_sum(s) == s.len() * c,
    decreases s.len(),
{
    if s.len() > 0 {
        lemma_byte_sum_constant(s.drop_last(), c);
        assert(s.len() * c == (s.len() - 1) * c + c) by (nonlinear_arith)
            requires
                s.len() > 0,
        ;
    }
}

/// In a sequence of equal bytes no byte deviates from the mean.
pub proof fn lemma_square_deviations_constant(s: Seq<u8>, c: u8, k: int)
    requires
        all_bytes_are(s, c),
        0 <= k <= s.len(),
    ensures
        square_deviations(s, k) == 0,
    decreases k,
{
    if k > 0 {
        lemma_square_deviations_constant(s, c, k - 1);
        lemma_byte_sum_constant(s, c);
        assert(s[k - 1] == c);
        assert(deviation(s, k - 1) == 0);
    }
}

/// The statistics of every sample that is not too long to be analyzed are
/// well formed: the variance is not negative, and no lag-1 autocorrelation
/// lies outside `[-1, 1]`.
pub proof fn law_statistics_are_well_formed(s: Seq<u8>)
    requires
        s.len() <= MAX_SAMPLE_BYTES,
    ensures
        StatisticalTests::of(s).wf(),
{
    let n = s.len() as int;
    lemma_ones_in_bound(s);
    lemma_square_deviations_bound(s, n);
    if n > 0 {
        lemma_cube_bound(n);
        assert(n * n * n == n * (n * n)) by (nonlinear_arith);
        lemma_lag_products_bound(s, n - 1);
        lemma_square_deviations_monotone(s, n - 1);
    }
}

/// The bit bias of any buffer lies in `[-1/2, 1/2]`.
pub proof fn law_bias_is_bounded(s: Seq<u8>)
    requires
        s.len() <= usize::MAX,
    ensures
        bias_of(s).wf(),
        -bias_of(s).den <= 2 * bias_of(s).num <= bias_of(s).den,
{
    lemma_ones_in_bound(s);
}

/// The bit bias of a buffer of equal bytes is the share of set bits in that
/// byte, less one half: exactly 1/2 where every byte is `0xFF`, exactly
/// -1/2 where every byte is `0x00`, and exactly zero where the byte has four
/// set bits, as `0xAA` has.
pub proof fn law_bias_of_constant(s: Seq<u8>, c: u8)
    requires
        0 < s.len() <= usize::MAX,
        all_bytes_are(s, c),
    ensures
        bias_of(s).num == (2 * byte_ones(c) - 8) * s.len(),
        bias_of(s).den == 16 * s.len(),
        c == 0xFF ==> 2 * bias_of(s).num == bias_of(s).den,
        c == 0x00 ==> 2 * bias_of(s).num == -bias_of(s).den,
        c == 0xAA ==> bias_of(s).num == 0,
{
    lemma_ones_in_constant(s, c);
    lemma_byte_ones_bound(c);
    let n = s.len() as int;
    let ones = byte_ones(c) as int;
    assert(2 * (n * ones) - 8 * n == (2 * ones - 8) * n) by (nonlinear_arith);
    assert(byte_ones(0xFF) == 8) by (bit_vector);
    assert(byte_ones(0x00) == 0) by (bit_vector);
    assert(byte_ones(0xAA) == 4) by (bit_vector);
    assert(ones == 4 ==> (2 * ones - 8) * n == 0) by (nonlinear_arith);
    assert(ones == 0 ==> (2 * ones - 8) * n == -8 * n) by (nonlinear_arith);
    assert(ones == 8 ==> (2 * ones - 8) * n == 8 * n) by (nonlinear_arith);
}

/// A buffer of equal bytes, of any length, has a variance of exactly zero
/// and, by the rule for constant streams, an autocorrelation of exactly
/// one. It never looks reasonable.
pub proof fn law_constant_buffer_is_degenerate(s: Seq<u8>, c: u8)
    requires
        all_bytes_are(s, c),
    ensures
        variance_of(s).num == 0,
        s.len() <= MAX_SAMPLE_BYTES ==> variance_of(s).wf(),
        autocorrelation_of(s) == (Ratio { num: 1, den: 1 }),
        !StatisticalTests::of(s).reasonable(),
{
    lemma_square_deviations_constant(s, c, s.len() as int);
    if 0 < s.len() <= MAX_SAMPLE_BYTES {
        lemma_cube_bound(s.len() as int);
    }
}

} // verus!
