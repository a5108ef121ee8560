// A dudect-style verifier: Welch's t-test on the instruction counts of two
// fixed inputs, on exact running sums.

use crate::errors::SideFuzzError;
use crate::wasm::WasmModule;
use vstd::prelude::*;

verus! {

/// The verdict of a round of sampling.
#[derive(Eq, PartialEq, Debug, Structural)]
pub enum DudeResult {
    /// The t-value reached the success threshold.
    Accept,
    /// Enough samples were taken and the t-value stayed at or below the
    /// give-up threshold.
    Reject,
    /// Neither: keep sampling.
    Progress,
}

/// Running sums of one series of instruction counts: the number of samples,
/// their sum and the sum of their squares.
#[derive(Debug, Clone, Copy)]
pub struct SampleStats {
    pub count: u64,
    pub sum: u128,
    pub sum_sq: u128,
}

/// `count` times the sum of squares, less the square of the sum: the spread
/// of the series (`count * (count - 1)` times its sample variance).
pub open spec fn spread(s: SampleStats) -> int {
    s.count * s.sum_sq - s.sum * s.sum
}

impl SampleStats {
    /// Sums of an empty series are zero, and the spread is never negative.
    pub open spec fn wf(&self) -> bool {
        &&& self.count == 0 ==> self.sum == 0 && self.sum_sq == 0
        &&& spread(*self) >= 0
    }

    /// No samples yet.
    pub fn new() -> (r: Self)
        ensures
            r.wf(),
            r.count == 0,
            r.sum == 0,
            r.sum_sq == 0,
    {
        SampleStats { count: 0, sum: 0, sum_sq: 0 }
    }

    /// The sums with one more sample `x`, or `None` where they would not fit.
    pub fn add(&self, x: u64) -> (r: Option<SampleStats>)
        requires
            self.wf(),
        ensures
            r matches Some(n) ==> n.wf() && n.count == self.count + 1 && n.sum == self.sum + x
                && n.sum_sq == self.sum_sq + x * x,
            r is None <==> (self.count + 1 > u64::MAX || self.sum + x > u128::MAX
                || self.sum_sq + x * x > u128::MAX),
    {
        assert((x as u128) * (x as u128) <= u128::MAX) by (nonlinear_arith)
            requires x <= u64::MAX;
        let sq: u128 = (x as u128) * (x as u128);
        if self.count == u64::MAX {
            return None;
        }
        let sum = match self.sum.checked_add(x as u128) {
            Some(v) => v,
            None => return None,
        };
        let sum_sq = match self.sum_sq.checked_add(sq) {
            Some(v) => v,
            None => return None,
        };
        let r = SampleStats { count: self.count + 1, sum, sum_sq };
        proof {
            lemma_spread_grows(*self, x as int);
        }
        Some(r)
    }
}

proof fn lemma_spread_grows(s: SampleStats, x: int)
    requires
        s.wf(),
    ensures
        (s.count + 1) * (s.sum_sq + x * x) - (s.sum + x) * (s.sum + x) >= spread(s),
{
    let n = s.count as int;
    let q = s.sum_sq as int;
    let m = s.sum as int;
    if n == 0 {
        assert((n + 1) * (q + x * x) - (m + x) * (m + x) == 0) by (nonlinear_arith)
            requires n == 0, m == 0, q == 0;
        assert(spread(s) == 0) by (nonlinear_arith)
            requires n == 0, m == 0, q == 0, spread(s) == n * q - m * m;
    } else {
        assert(n * (q + n * x * x - 2 * m * x) == (n * q - m * m) + (m - n * x) * (m - n * x))
            by (nonlinear_arith);
        assert((m - n * x) * (m - n * x) >= 0) by (nonlinear_arith);
        assert(q + n * x * x - 2 * m * x >= 0) by (nonlinear_arith)
            requires
                n > 0,
                n * q - m * m >= 0,
                n * (q + n * x * x - 2 * m * x) == (n * q - m * m) + (m - n * x) * (m - n * x),
                (m - n * x) * (m - n * x) >= 0;
        assert((n + 1) * (q + x * x) - (m + x) * (m + x) == (n * q - m * m) + (q + n * x * x - 2 * m * x))
            by (nonlinear_arith);
    }
}

/// Numerator of the square of Welch's t for two series of equal length `n`:
/// `(sum1 - sum2)^2 * (n - 1)`, zero for fewer than two samples.
pub open spec fn welch_num(s1: SampleStats, s2: SampleStats) -> int {
    if s1.count <= 1 {
        0
    } else {
        (s1.sum - s2.sum) * (s1.sum - s2.sum) * (s1.count - 1)
    }
}

/// Denominator of the square of Welch's t: the sum of the two spreads.
///
/// With sample variances `v1`, `v2` and means `m1`, `m2` of two series of
/// `n` samples, `(m1 - m2)^2 / (v1 / n + v2 / n)` equals
/// `welch_num / welch_den`.
pub open spec fn welch_den(s1: SampleStats, s2: SampleStats) -> int {
    spread(s1) + spread(s2)
}

/// Whether `t >= milli / 1000`, where `t * t == num / den`; `0 / 0` is a
/// t of zero and `num / 0` with `num > 0` an infinite t.
pub open spec fn t_at_least(num: int, den: int, milli: int) -> bool {
    if den == 0 {
        num > 0 || milli == 0
    } else {
        1_000_000 * num >= milli * milli * den
    }
}

/// Whether `t <= milli / 1000`, where `t * t == num / den`, as above.
pub open spec fn t_at_most(num: int, den: int, milli: int) -> bool {
    if den == 0 {
        num == 0
    } else {
        1_000_000 * num <= milli * milli * den
    }
}

/// The verdict for t (given by `num / den`), the number of samples per side,
/// the thresholds in thousandths and the fewest samples before giving up.
pub open spec fn decide(num: int, den: int, count: int, t_threshold: int, t_fail: int, fail_min_samples: int) -> DudeResult {
    if t_at_least(num, den, t_threshold) {
        DudeResult::Accept
    } else if count > fail_min_samples && t_at_most(num, den, t_fail) {
        DudeResult::Reject
    } else {
        DudeResult::Progress
    }
}

/// Two identical series are rejected once they hold more than
/// `fail_min_samples` samples each, whenever the success threshold is
/// positive: their t is zero.
pub proof fn lemma_identical_series_rejected(s: SampleStats, t_threshold: int, t_fail: int, fail_min_samples: int)
    requires
        s.wf(),
        t_threshold > 0,
        t_fail >= 0,
        s.count > fail_min_samples,
    ensures
        welch_num(s, s) == 0,
        decide(welch_num(s, s), welch_den(s, s), s.count as int, t_threshold, t_fail, fail_min_samples)
            == DudeResult::Reject,
{
    let d: int = s.sum - s.sum;
    assert(d == 0);
    assert(d * d * (s.count - 1) == 0) by (nonlinear_arith)
        requires d == 0;
    let den = welch_den(s, s);
    assert(den >= 0);
    if den > 0 {
        assert(t_threshold * t_threshold * den > 0) by (nonlinear_arith)
            requires t_threshold > 0, den > 0;
        assert(t_fail * t_fail * den >= 0) by (nonlinear_arith)
            requires den > 0;
    }
}

/// Sums of `n` samples that all equal `x`.
pub open spec fn constant_series(n: u64, x: u64) -> SampleStats {
    SampleStats { count: n, sum: (n * x) as u128, sum_sq: (n * x * x) as u128 }
}

/// Two series of at least two samples, each repeating one count, the two
/// counts differing, are accepted: their t is infinite.
pub proof fn lemma_constant_distinct_series_accepted(
    n: u64,
    a: u64,
    b: u64,
    t_threshold: int,
    t_fail: int,
    fail_min_samples: int,
)
    requires
        n >= 2,
        a != b,
        n * a * a <= u128::MAX,
        n * b * b <= u128::MAX,
    ensures
        decide(
            welch_num(constant_series(n, a), constant_series(n, b)),
            welch_den(constant_series(n, a), constant_series(n, b)),
            n as int,
            t_threshold,
            t_fail,
            fail_min_samples,
        ) == DudeResult::Accept,
{
    let s1 = constant_series(n, a);
    let s2 = constant_series(n, b);
    assert(n * a <= n * a * a || a == 0) by (nonlinear_arith)
        requires n >= 2;
    assert(n * b <= n * b * b || b == 0) by (nonlinear_arith)
        requires n >= 2;
    assert(s1.sum == n * a && s1.sum_sq == n * a * a);
    assert(s2.sum == n * b && s2.sum_sq == n * b * b);
    assert(spread(s1) == 0) by (nonlinear_arith)
        requires spread(s1) == n * (n * a * a) - (n * a) * (n * a);
    assert(spread(s2) == 0) by (nonlinear_arith)
        requires spread(s2) == n * (n * b * b) - (n * b) * (n * b);
    assert((n * a - n * b) * (n * a - n * b) * (n - 1) > 0) by (nonlinear_arith)
        requires n >= 2, a != b;
}

/// The quantities of the test fit in 128 bits.
pub open spec fn stats_fit(s1: SampleStats, s2: SampleStats, t_threshold: int, t_fail: int) -> bool {
    &&& 1_000_000 * welch_num(s1, s2) <= u128::MAX
    &&& welch_den(s1, s2) <= u128::MAX
    &&& s1.count * s1.sum_sq <= u128::MAX
    &&& s2.count * s2.sum_sq <= u128::MAX
    &&& t_threshold * t_threshold * welch_den(s1, s2) <= u128::MAX
    &&& t_fail * t_fail * welch_den(s1, s2) <= u128::MAX
}

/// The square of Welch's t as the fraction `num / den`.
#[derive(Debug, Clone, Copy)]
pub struct WelchT {
    pub num: u128,
    pub den: u128,
}

/// Welch's t (squared, as a fraction) and the verdict for two series of
/// equal length; `None` where the quantities of the test do not fit in 128
/// bits.
pub fn evaluate(
    s1: &SampleStats,
    s2: &SampleStats,
    t_threshold: u32,
    t_fail: u32,
    fail_min_samples: usize,
) -> (r: Option<(WelchT, DudeResult)>)
    requires
        s1.wf(),
        s2.wf(),
        s1.count == s2.count,
    ensures
        r is Some <==> stats_fit(*s1, *s2, t_threshold as int, t_fail as int),
        r matches Some((t, d)) ==> {
            &&& t.num == welch_num(*s1, *s2)
            &&& t.den == welch_den(*s1, *s2)
            &&& d == decide(
                t.num as int,
                t.den as int,
                s1.count as int,
                t_threshold as int,
                t_fail as int,
                fail_min_samples as int,
            )
        },
{
    let n = s1.count;
    let ghost wn = welch_num(*s1, *s2);
    let ghost wd = welch_den(*s1, *s2);
    let num: u128 = if n <= 1 {
        0
    } else {
        let d: u128 = if s1.sum >= s2.sum { s1.sum - s2.sum } else { s2.sum - s1.sum };
        let ghost diff: int = s1.sum - s2.sum;
        assert(d * d == diff * diff) by (nonlinear_arith)
            requires d == diff || d == -diff;
        let d2 = match d.checked_mul(d) {
            Some(v) => v,
            None => {
                assert(wn >= d * d) by (nonlinear_arith)
                    requires wn == diff * diff * (n - 1), n >= 2, d * d == diff * diff;
                return None;
            },
        };
        match d2.checked_mul((n - 1) as u128) {
            Some(v) => v,
            None => return None,
        }
    };
    assert(num == wn);
    let scaled = match num.checked_mul(1_000_000) {
        Some(v) => v,
        None => return None,
    };
    let nq1 = match (n as u128).checked_mul(s1.sum_sq) {
        Some(v) => v,
        None => return None,
    };
    let nq2 = match (n as u128).checked_mul(s2.sum_sq) {
        Some(v) => v,
        None => return None,
    };
    assert(s1.sum * s1.sum <= nq1);
    assert(s2.sum * s2.sum <= nq2);
    assert(s1.sum * s1.sum <= u128::MAX) by (nonlinear_arith)
        requires s1.sum * s1.sum <= nq1, nq1 <= u128::MAX;
    assert(s2.sum * s2.sum <= u128::MAX) by (nonlinear_arith)
        requires s2.sum * s2.sum <= nq2, nq2 <= u128::MAX;
    let a1 = nq1 - s1.sum * s1.sum;
    let a2 = nq2 - s2.sum * s2.sum;
    let den = match a1.checked_add(a2) {
        Some(v) => v,
        None => return None,
    };
    assert(den == wd);
    assert((t_threshold as u128) * (t_threshold as u128) <= u128::MAX) by (nonlinear_arith)
        requires t_threshold <= u32::MAX;
    assert((t_fail as u128) * (t_fail as u128) <= u128::MAX) by (nonlinear_arith)
        requires t_fail <= u32::MAX;
    let ts2: u128 = (t_threshold as u128) * (t_threshold as u128);
    let tf2: u128 = (t_fail as u128) * (t_fail as u128);
    let success_bound = match ts2.checked_mul(den) {
        Some(v) => v,
        None => return None,
    };
    let fail_bound = match tf2.checked_mul(den) {
        Some(v) => v,
        None => return None,
    };
    let at_least = if den == 0 {
        num > 0 || t_threshold == 0
    } else {
        scaled >= success_bound
    };
    let at_most = if den == 0 {
        num == 0
    } else {
        scaled <= fail_bound
    };
    let verdict = if at_least {
        DudeResult::Accept
    } else if n as u128 > fail_min_samples as u128 && at_most {
        DudeResult::Reject
    } else {
        DudeResult::Progress
    };
    Some((WelchT { num, den }, verdict))
}

/// The verdict of a round of sampling for the fuzz and check commands:
/// `None` to keep sampling; an error ends the verification as a rejection.
pub fn round_verdict(r: &Result<(WelchT, DudeResult), SideFuzzError>) -> (v: Option<DudeResult>)
    ensures
        r matches Ok((_, DudeResult::Progress)) ==> v is None,
        r matches Ok((_, DudeResult::Accept)) ==> v == Some(DudeResult::Accept),
        r matches Ok((_, DudeResult::Reject)) ==> v == Some(DudeResult::Reject),
        r is Err ==> v == Some(DudeResult::Reject),
{
    match r {
        Ok((_, DudeResult::Progress)) => None,
        Ok((_, DudeResult::Accept)) => Some(DudeResult::Accept),
        Ok((_, DudeResult::Reject)) => Some(DudeResult::Reject),
        Err(_) => Some(DudeResult::Reject),
    }
}

/// Verifies whether two fixed inputs make the target execute different
/// numbers of instructions.
pub struct DudeCT {
    t_threshold: u32,
    t_fail: u32,
    fail_min_samples: usize,
    first: Vec<u8>,
    second: Vec<u8>,
    module: WasmModule,
    first_stats: SampleStats,
    second_stats: SampleStats,
}

impl DudeCT {
    /// Running sums of the first input's counts.
    pub closed spec fn first_stats_spec(&self) -> SampleStats {
        self.first_stats
    }

    /// Running sums of the second input's counts.
    pub closed spec fn second_stats_spec(&self) -> SampleStats {
        self.second_stats
    }

    /// Success threshold of t, in thousandths.
    pub closed spec fn t_threshold_spec(&self) -> int {
        self.t_threshold as int
    }

    /// Give-up threshold of t, in thousandths.
    pub closed spec fn t_fail_spec(&self) -> int {
        self.t_fail as int
    }

    /// Fewest samples per side before giving up.
    pub closed spec fn fail_min_samples_spec(&self) -> int {
        self.fail_min_samples as int
    }

    /// The two inputs.
    pub closed spec fn inputs_spec(&self) -> (Seq<u8>, Seq<u8>) {
        (self.first@, self.second@)
    }

    /// Both series are well formed and hold the same number of samples.
    pub closed spec fn wf(&self) -> bool {
        &&& self.first_stats.wf()
        &&& self.second_stats.wf()
        &&& self.first_stats.count == self.second_stats.count
        &&& self.module.wf()
    }

    /// A verifier of the two inputs on the module, with thresholds of t in
    /// thousandths (success at `t_threshold`, giving up at `t_fail` once more
    /// than `fail_min_samples` samples per side were taken). Both inputs
    /// must have the module's input length.
    pub fn new(
        t_threshold: u32,
        t_fail: u32,
        fail_min_samples: usize,
        first: Vec<u8>,
        second: Vec<u8>,
        module: WasmModule,
    ) -> (r: Result<Self, SideFuzzError>)
        requires
            module.wf(),
        ensures
            r is Ok <==> (first@.len() == module.fuzz_len_spec() && second@.len() == module.fuzz_len_spec()),
            r matches Err(e) ==> e is InputsDifferentSizes,
            r matches Ok(d) ==> {
                &&& d.wf()
                &&& d.first_stats_spec().count == 0
                &&& d.second_stats_spec().count == 0
                &&& d.inputs_spec() == (first@, second@)
                &&& d.t_threshold_spec() == t_threshold
                &&& d.t_fail_spec() == t_fail
                &&& d.fail_min_samples_spec() == fail_min_samples
            },
    {
        if module.fuzz_len() != first.len() || module.fuzz_len() != second.len() {
            return Err(SideFuzzError::InputsDifferentSizes);
        }
        Ok(DudeCT {
            t_threshold,
            t_fail,
            fail_min_samples,
            first,
            second,
            module,
            first_stats: SampleStats::new(),
            second_stats: SampleStats::new(),
        })
    }

    /// The number of samples taken, both sides together.
    pub fn len(&self) -> (r: u128)
        ensures
            r == self.first_stats_spec().count + self.second_stats_spec().count,
    {
        self.first_stats.count as u128 + self.second_stats.count as u128
    }

    /// Takes `num_samples` more samples of each input (the first, then the
    /// second, in every round) and returns Welch's t, squared as a fraction,
    /// with the verdict. A trap of the guest ends the round with its error;
    /// `StatisticsOverflow` comes where the sums no longer fit in 128 bits.
    pub fn sample(&mut self, num_samples: u64) -> (r: Result<(WelchT, DudeResult), SideFuzzError>)
        requires
            old(self).wf(),
        ensures
            final(self).wf(),
            final(self).second_stats_spec().count == final(self).first_stats_spec().count,
            final(self).inputs_spec() == old(self).inputs_spec(),
            final(self).t_threshold_spec() == old(self).t_threshold_spec(),
            final(self).t_fail_spec() == old(self).t_fail_spec(),
            final(self).fail_min_samples_spec() == old(self).fail_min_samples_spec(),
            final(self).first_stats_spec().count >= old(self).first_stats_spec().count,
            old(self).second_stats_spec().count == old(self).first_stats_spec().count
                ==> final(self).second_stats_spec().count == final(self).first_stats_spec().count,
            num_samples == 0 ==> (r is Ok <==> stats_fit(
                old(self).first_stats_spec(),
                old(self).second_stats_spec(),
                old(self).t_threshold_spec(),
                old(self).t_fail_spec(),
            )),
            r matches Ok((t, d)) ==> {
                let s1 = final(self).first_stats_spec();
                let s2 = final(self).second_stats_spec();
                &&& s1.count == old(self).first_stats_spec().count + num_samples
                &&& stats_fit(s1, s2, final(self).t_threshold_spec(), final(self).t_fail_spec())
                &&& t.num == welch_num(s1, s2)
                &&& t.den == welch_den(s1, s2)
                &&& d == decide(
                    t.num as int,
                    t.den as int,
                    s1.count as int,
                    final(self).t_threshold_spec(),
                    final(self).t_fail_spec(),
                    final(self).fail_min_samples_spec(),
                )
            },
            r matches Err(SideFuzzError::StatisticsOverflow) ==> {
                let s1 = final(self).first_stats_spec();
                let s2 = final(self).second_stats_spec();
                ||| !stats_fit(s1, s2, final(self).t_threshold_spec(), final(self).t_fail_spec())
                ||| s1.count < old(self).first_stats_spec().count + num_samples
            },
    {
        let mut i: u64 = 0;
        while i < num_samples
            invariant
                self.wf(),
                i <= num_samples,
                self.inputs_spec() == old(self).inputs_spec(),
                self.t_threshold == old(self).t_threshold,
                self.t_fail == old(self).t_fail,
                self.fail_min_samples == old(self).fail_min_samples,
                self.first_stats.count == old(self).first_stats.count + i,
                i == 0 ==> self.first_stats == old(self).first_stats && self.second_stats == old(self).second_stats,
            decreases num_samples - i,
        {
            let first_instructions = self.module.count_instructions(self.first.as_slice())?;
            let second_instructions = self.module.count_instructions(self.second.as_slice())?;
            let first_stats = self.first_stats.add(first_instructions);
            let second_stats = self.second_stats.add(second_instructions);
            match (first_stats, second_stats) {
                (Some(f), Some(s)) => {
                    self.first_stats = f;
                    self.second_stats = s;
                },
                _ => return Err(SideFuzzError::StatisticsOverflow),
            }
            i = i + 1;
        }
        match evaluate(&self.first_stats, &self.second_stats, self.t_threshold, self.t_fail, self.fail_min_samples) {
            Some(result) => Ok(result),
            None => Err(SideFuzzError::StatisticsOverflow),
        }
    }
}

} // verus!
