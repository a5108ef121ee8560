// Input pairs, scored pairs and the t-value to p-value table.

use crate::errors::SideFuzzError;
use crate::wasm::WasmModule;
use vstd::prelude::*;

verus! {

/// Two inputs of equal length for the fuzzing target.
#[derive(Debug, Clone, Default)]
pub struct InputPair {
    pub first: Vec<u8>,
    pub second: Vec<u8>,
    pub is_str: bool,
}

/// The score that stands for a guest trap: it ranks below every other score.
pub const NEG_INFINITY_SCORE: i128 = i128::MIN;

/// An input pair with its fitness.
///
/// For a pair scored by two executions, `score` is `highest - lowest`, the
/// difference of the two instruction counts, or `NEG_INFINITY_SCORE` where
/// the guest trapped.
#[derive(Debug, Clone, Default)]
pub struct ScoredInputPair {
    pub score: i128,
    pub highest: u64,
    pub lowest: u64,
    pub pair: InputPair,
}

/// The score is the difference of the two instruction counts, or marks a
/// trap.
pub open spec fn score_consistent(s: ScoredInputPair) -> bool {
    s.score == NEG_INFINITY_SCORE || (s.highest >= s.lowest && s.score == s.highest - s.lowest)
}

impl ScoredInputPair {
    /// A pair whose two runs executed `first_count` and `second_count`
    /// instructions.
    pub fn from_counts(first_count: u64, second_count: u64, pair: InputPair) -> (r: Self)
        ensures
            r.highest == if first_count >= second_count { first_count } else { second_count },
            r.lowest == if first_count >= second_count { second_count } else { first_count },
            r.score == r.highest - r.lowest,
            r.pair == pair,
    {
        let (highest, lowest) = if first_count >= second_count {
            (first_count, second_count)
        } else {
            (second_count, first_count)
        };
        ScoredInputPair { score: (highest - lowest) as i128, highest, lowest, pair }
    }

    /// An empty pair with a score of zero.
    pub fn default_pair() -> (r: Self)
        ensures
            r.score == 0,
            r.highest == 0,
            r.lowest == 0,
            r.pair.first@.len() == 0,
            r.pair.second@.len() == 0,
            !r.pair.is_str,
    {
        ScoredInputPair {
            score: 0,
            highest: 0,
            lowest: 0,
            pair: InputPair { first: Vec::new(), second: Vec::new(), is_str: false },
        }
    }

    /// A pair on which the guest trapped.
    pub fn trapped(pair: InputPair) -> (r: Self)
        ensures
            r.score == NEG_INFINITY_SCORE,
            r.highest == 0,
            r.lowest == 0,
            r.pair == pair,
    {
        ScoredInputPair { score: NEG_INFINITY_SCORE, highest: 0, lowest: 0, pair }
    }

    /// Scores a pair by running the target once on each side: the score is
    /// the difference of the two instruction counts, or
    /// `NEG_INFINITY_SCORE` where either run trapped (the second side is not
    /// run where the first trapped).
    pub fn generate(module: &mut WasmModule, first: Vec<u8>, second: Vec<u8>, is_str: bool) -> (r: Self)
        requires
            old(module).wf(),
        ensures
            final(module).wf(),
            final(module).bytes_spec() == old(module).bytes_spec(),
            final(module).fuzz_len_spec() == old(module).fuzz_len_spec(),
            score_consistent(r),
            r.pair.first@ == first@,
            r.pair.second@ == second@,
            r.pair.is_str == is_str,
    {
        let first_count = match module.count_instructions(first.as_slice()) {
            Ok(c) => c,
            Err(_) => return Self::trapped(InputPair { first, second, is_str }),
        };
        let second_count = match module.count_instructions(second.as_slice()) {
            Ok(c) => c,
            Err(_) => return Self::trapped(InputPair { first, second, is_str }),
        };
        Self::from_counts(first_count, second_count, InputPair { first, second, is_str })
    }
}

/// Number of breakpoints of the t table.
pub const T_TABLE_LEN: usize = 15;

/// t-values of the table in thousandths, decreasing.
pub open spec fn t_table_t(i: int) -> int {
    if i == 0 { 10000 }
    else if i == 1 { 3910 }
    else if i == 2 { 3291 }
    else if i == 3 { 3090 }
    else if i == 4 { 2807 }
    else if i == 5 { 2576 }
    else if i == 6 { 2326 }
    else if i == 7 { 1960 }
    else if i == 8 { 1645 }
    else if i == 9 { 1282 }
    else if i == 10 { 1036 }
    else if i == 11 { 842 }
    else if i == 12 { 674 }
    else if i == 13 { 253 }
    else { 0 }
}

/// p-values of the table in ten-thousandths, increasing.
pub open spec fn t_table_p(i: int) -> int {
    if i == 0 { 0 }
    else if i == 1 { 1 }
    else if i == 2 { 10 }
    else if i == 3 { 20 }
    else if i == 4 { 50 }
    else if i == 5 { 100 }
    else if i == 6 { 200 }
    else if i == 7 { 500 }
    else if i == 8 { 1000 }
    else if i == 9 { 2000 }
    else if i == 10 { 3000 }
    else if i == 11 { 4000 }
    else if i == 12 { 5000 }
    else if i == 13 { 6000 }
    else { 10000 }
}

/// The p-value (in ten-thousandths) of the first breakpoint, from index `i`
/// on, whose t-value lies strictly below `t_micro` (a t-value in millionths).
pub open spec fn p_from(t_micro: int, i: nat) -> int
    decreases T_TABLE_LEN - i,
{
    if i >= T_TABLE_LEN {
        10000
    } else if t_micro > 1000 * t_table_t(i as int) {
        t_table_p(i as int)
    } else {
        p_from(t_micro, i + 1)
    }
}

/// Two-tailed p-value, in ten-thousandths, of a t-value given in millionths,
/// for infinitely many degrees of freedom.
pub open spec fn p_value_spec(t_micro: int) -> int {
    if t_micro <= 0 { 10000 } else { p_from(t_micro, 0) }
}

fn t_table_entry(i: usize) -> (r: (u64, u32))
    requires
        i < T_TABLE_LEN,
    ensures
        r.0 == t_table_t(i as int),
        r.1 == t_table_p(i as int),
{
    if i == 0 { (10000, 0) }
    else if i == 1 { (3910, 1) }
    else if i == 2 { (3291, 10) }
    else if i == 3 { (3090, 20) }
    else if i == 4 { (2807, 50) }
    else if i == 5 { (2576, 100) }
    else if i == 6 { (2326, 200) }
    else if i == 7 { (1960, 500) }
    else if i == 8 { (1645, 1000) }
    else if i == 9 { (1282, 2000) }
    else if i == 10 { (1036, 3000) }
    else if i == 11 { (842, 4000) }
    else if i == 12 { (674, 5000) }
    else if i == 13 { (253, 6000) }
    else { (0, 10000) }
}

/// Given a t-value in millionths (rounded up), returns the two-tailed p-value
/// in ten-thousandths: that of the first breakpoint of the table whose t-value
/// is strictly less than the input, or 10000 (a p-value of 1) where the input
/// is not positive.
pub fn p_value_from_t_value(t_micro: u64) -> (p: u32)
    ensures
        p == p_value_spec(t_micro as int),
        p <= 10000,
{
    if t_micro == 0 {
        return 10000;
    }
    let mut i: usize = 0;
    while i < T_TABLE_LEN
        invariant
            i <= T_TABLE_LEN,
            t_micro > 0,
            p_from(t_micro as int, 0) == p_from(t_micro as int, i as nat),
        decreases T_TABLE_LEN - i,
    {
        let (t_milli, p) = t_table_entry(i);
        if t_micro > 1000 * t_milli {
            return p;
        }
        i = i + 1;
    }
    10000
}

proof fn lemma_p_from_at_least_entry(t_micro: int, i: nat)
    requires
        i < T_TABLE_LEN,
    ensures
        p_from(t_micro, i) >= t_table_p(i as int),
    decreases T_TABLE_LEN - i,
{
    reveal_with_fuel(p_from, 2);
    assert(t_table_p(i as int) <= t_table_p(i as int + 1));
    if i + 1 < T_TABLE_LEN {
        lemma_p_from_at_least_entry(t_micro, i + 1);
    }
}

proof fn lemma_p_from_monotone(t1: int, t2: int, i: nat)
    requires
        t1 <= t2,
    ensures
        p_from(t1, i) >= p_from(t2, i),
    decreases T_TABLE_LEN - i,
{
    if i < T_TABLE_LEN {
        lemma_p_from_monotone(t1, t2, i + 1);
        assert(t_table_t(i as int) >= 0);
        if i + 1 < T_TABLE_LEN {
            lemma_p_from_at_least_entry(t1, i + 1);
            assert(t_table_p(i as int) <= t_table_p(i as int + 1));
        }
    }
}

/// The p-value does not increase as the t-value grows; a t-value of zero has
/// a p-value of 1, and a t-value above 10 has a p-value of 0.
pub proof fn lemma_p_value_monotone(t1: int, t2: int)
    ensures
        t1 < t2 ==> p_value_spec(t1) >= p_value_spec(t2),
        p_value_spec(0) == 10000,
        t2 > 10_000_000 ==> p_value_spec(t2) == 0,
{
    if t1 < t2 {
        if t1 <= 0 {
            if t2 > 0 {
                lemma_p_from_at_least_entry(t2, 0);
                lemma_p_from_upper(t2, 0);
            }
        } else {
            lemma_p_from_monotone(t1, t2, 0);
        }
    }
}

proof fn lemma_p_from_upper(t_micro: int, i: nat)
    ensures
        p_from(t_micro, i) <= 10000,
    decreases T_TABLE_LEN - i,
{
    if i < T_TABLE_LEN {
        lemma_p_from_upper(t_micro, i + 1);
    }
}

} // verus!
