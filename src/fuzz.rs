// The decisions of the fuzz command: when the optimizer has settled on a
// candidate pair and the verifier should take over.

use crate::dudect::{DudeCT, DudeResult};
use crate::errors::SideFuzzError;
use crate::optimizer::{sorted_by_score, Optimizer, RankedEntry, POPULATION_SIZE};
use crate::util::{InputPair, ScoredInputPair};
use crate::wasm::WasmModule;
use vstd::prelude::*;

verus! {

/// Success threshold of t, in thousandths (a t of 4.5).
pub const T_SUCCESS_MILLI: u32 = 4500;

/// Give-up threshold of t, in thousandths (a t of 0.674, 50% confidence).
pub const T_GIVE_UP_MILLI: u32 = 674;

/// Fewest samples per side before the verifier gives up.
pub const GIVE_UP_MIN_SAMPLES: usize = 100_000;

/// Samples per side in each round of verification.
pub const SAMPLES_PER_ROUND: u64 = 10_000;

/// Optimizer generations between two looks at the population.
pub const GENERATIONS_PER_ROUND: usize = 500;

/// Number of generation-best scores in the sliding window.
pub const WINDOW_LEN: usize = 10;

/// The empty pair with a score of zero, from which the search for a best
/// pair starts.
pub open spec fn is_empty_default(s: ScoredInputPair) -> bool {
    &&& s.score == 0
    &&& s.highest == 0
    &&& s.lowest == 0
    &&& s.pair.first@.len() == 0
    &&& s.pair.second@.len() == 0
    &&& !s.pair.is_str
}

/// Every score of the window equals `score`.
pub open spec fn window_settled(window: Seq<i128>, score: i128) -> bool {
    forall|i: int| 0 <= i < window.len() ==> #[trigger] window[i] == score
}

/// Whether every element of `v` equals `x`.
fn all_equal(v: &Vec<i128>, x: i128) -> (r: bool)
    ensures
        r == window_settled(v@, x),
{
    let mut i: usize = 0;
    while i < v.len()
        invariant
            i <= v@.len(),
            window_settled(v@.take(i as int), x),
        decreases v@.len() - i,
    {
        if v[i] != x {
            assert(v@.take(i as int + 1)[i as int] == v@[i as int]);
            return false;
        }
        i = i + 1;
        assert(v@.take(i as int) =~= v@.take(i - 1).push(v@[i - 1]));
    }
    assert(v@.take(i as int) =~= v@);
    true
}

/// `b`'s population is a next generation of `a`'s (see `Optimizer::step`).
pub open spec fn is_step<T>(a: Optimizer<T>, b: Optimizer<T>) -> bool
    where
        T: Fn(&Vec<u8>, &Vec<u8>) -> ScoredInputPair,
{
    exists|outs: Seq<ScoredInputPair>, ranking: Seq<RankedEntry>|
        #[trigger] a.is_next_generation(b.population_spec(), outs, ranking)
}

/// Each optimizer state of `states` is one step from the one before it.
pub open spec fn is_step_chain<T>(states: Seq<Optimizer<T>>) -> bool
    where
        T: Fn(&Vec<u8>, &Vec<u8>) -> ScoredInputPair,
{
    forall|k: int| 0 <= k < states.len() - 1 ==> #[trigger] is_step(states[k], states[k + 1])
}

/// Runs `GENERATIONS_PER_ROUND` generations of the optimizer and returns the
/// best pair of the resulting population: a result of the fitness function
/// on one of its pairs, and scored at least as high as each of them.
pub fn evolve_round<T>(optimizer: &mut Optimizer<T>) -> (pop_best: ScoredInputPair)
    where
        T: Fn(&Vec<u8>, &Vec<u8>) -> ScoredInputPair,
    requires
        old(optimizer).wf(),
    ensures
        final(optimizer).wf(),
        final(optimizer).input_len_spec() == old(optimizer).input_len_spec(),
        final(optimizer).is_str_spec() == old(optimizer).is_str_spec(),
        final(optimizer).fitness_spec() == old(optimizer).fitness_spec(),
        exists|states: Seq<Optimizer<T>>| {
            &&& states.len() == GENERATIONS_PER_ROUND + 1
            &&& states[0] == *old(optimizer)
            &&& states[GENERATIONS_PER_ROUND as int] == *final(optimizer)
            &&& #[trigger] is_step_chain(states)
        },
        exists|outs: Seq<ScoredInputPair>| {
            &&& outs.len() == POPULATION_SIZE
            &&& outs.contains(pop_best)
            &&& forall|i: int| 0 <= i < POPULATION_SIZE ==> (#[trigger] outs[i]).score <= pop_best.score
            &&& forall|i: int|
                0 <= i < POPULATION_SIZE ==> call_ensures(
                    final(optimizer).fitness_spec(),
                    (
                        &final(optimizer).population_spec()[i].first,
                        &final(optimizer).population_spec()[i].second,
                    ),
                    #[trigger] outs[i],
                )
        },
{
    broadcast use vstd::seq_lib::group_to_multiset_ensures;

    let mut g: usize = 0;
    let ghost mut states: Seq<Optimizer<T>> = seq![*optimizer];
    while g < GENERATIONS_PER_ROUND
        invariant
            states.len() == g + 1,
            states[0] == *old(optimizer),
            states[g as int] == *optimizer,
            is_step_chain(states),
            optimizer.wf(),
            optimizer.input_len_spec() == old(optimizer).input_len_spec(),
            optimizer.is_str_spec() == old(optimizer).is_str_spec(),
            optimizer.fitness_spec() == old(optimizer).fitness_spec(),
            g <= GENERATIONS_PER_ROUND,
        decreases GENERATIONS_PER_ROUND - g,
    {
        let ghost before = *optimizer;
        optimizer.step();
        proof {
            let prev = states;
            states = states.push(*optimizer);
            assert(is_step(before, *optimizer));
            assert forall|k: int| 0 <= k < states.len() - 1 implies #[trigger] is_step(states[k], states[k + 1]) by {
                if k < prev.len() - 1 {
                    assert(states[k] == prev[k] && states[k + 1] == prev[k + 1]);
                }
            }
        }
        g = g + 1;
    }
    let mut population = optimizer.scored_population();
    let ghost scored = population@;
    let ghost outs = choose|outs: Seq<ScoredInputPair>|
        {
            &&& outs.len() == POPULATION_SIZE
            &&& scored.to_multiset() == outs.to_multiset()
            &&& forall|i: int|
                0 <= i < POPULATION_SIZE ==> call_ensures(
                    optimizer.fitness_spec(),
                    (&optimizer.population_spec()[i].first, &optimizer.population_spec()[i].second),
                    #[trigger] outs[i],
                )
        };
    let pop_best = population.swap_remove(0);
    proof {
        assert(scored[0] == pop_best);
        assert(scored.contains(pop_best));
        vstd::seq_lib::to_multiset_contains(scored, pop_best);
        vstd::seq_lib::to_multiset_contains(outs, pop_best);
        assert(outs.contains(pop_best));
        assert forall|i: int| 0 <= i < POPULATION_SIZE implies (#[trigger] outs[i]).score <= pop_best.score by {
            assert(outs.contains(outs[i]));
            vstd::seq_lib::to_multiset_contains(outs, outs[i]);
            vstd::seq_lib::to_multiset_contains(scored, outs[i]);
            assert(scored.contains(outs[i]));
            let j = scored.index_of(outs[i]);
            assert(sorted_by_score(scored));
            if j > 0 {
                assert(scored[0].score >= scored[j].score);
            }
        }
    }
    pop_best
}

/// The fuzz command on a module.
pub struct Fuzz {
    module: WasmModule,
}

impl Fuzz {
    /// The fuzz command on a loaded module.
    pub fn new(module: WasmModule) -> (r: Self)
        ensures
            r.module_spec() == module,
    {
        Fuzz { module }
    }

    /// The module.
    pub closed spec fn module_spec(&self) -> WasmModule {
        self.module
    }

    /// The module, to run the target on.
    pub fn module_mut(&mut self) -> (r: &mut WasmModule)
        ensures
            *r == old(self).module_spec(),
            final(self).module_spec() == *final(r),
    {
        &mut self.module
    }

    /// A verifier for a candidate pair, on a fresh instance of the module,
    /// with the fuzz command's thresholds.
    pub fn verifier_for(&self, candidate: &InputPair) -> (r: Result<DudeCT, SideFuzzError>)
        ensures
            r matches Ok(d) ==> {
                &&& d.wf()
                &&& d.first_stats_spec().count == 0
                &&& d.inputs_spec() == (candidate.first@, candidate.second@)
                &&& d.t_threshold_spec() == T_SUCCESS_MILLI
                &&& d.t_fail_spec() == T_GIVE_UP_MILLI
                &&& d.fail_min_samples_spec() == GIVE_UP_MIN_SAMPLES
            },
    {
        let module = self.module.try_clone()?;
        DudeCT::new(
            T_SUCCESS_MILLI,
            T_GIVE_UP_MILLI,
            GIVE_UP_MIN_SAMPLES,
            candidate.first.clone(),
            candidate.second.clone(),
            module,
        )
    }
}

/// What the fuzz command remembers between two looks at the population: the
/// best scored pair so far and the last `WINDOW_LEN` generation-best scores.
pub struct FuzzState {
    best: ScoredInputPair,
    window: Vec<i128>,
}

impl FuzzState {
    /// The best scored pair so far.
    pub closed spec fn best_spec(&self) -> ScoredInputPair {
        self.best
    }

    /// The last generation-best scores, oldest first.
    pub closed spec fn window_spec(&self) -> Seq<i128> {
        self.window@
    }

    /// No best pair yet (the empty pair, a score of zero) and a window of
    /// zeros.
    pub fn new() -> (r: Self)
        ensures
            is_empty_default(r.best_spec()),
            r.window_spec() == Seq::new(WINDOW_LEN as nat, |i: int| 0i128),
    {
        let mut window: Vec<i128> = Vec::with_capacity(WINDOW_LEN);
        let mut i: usize = 0;
        while i < WINDOW_LEN
            invariant
                i <= WINDOW_LEN,
                window@ == Seq::new(i as nat, |k: int| 0i128),
            decreases WINDOW_LEN - i,
        {
            window.push(0);
            i = i + 1;
            assert(window@ =~= Seq::new(i as nat, |k: int| 0i128));
        }
        FuzzState { best: ScoredInputPair::default_pair(), window }
    }

    /// The best scored pair so far.
    pub fn best(&self) -> (r: &ScoredInputPair)
        ensures
            *r == self.best_spec(),
    {
        &self.best
    }

    /// Records the best pair of a generation: its score enters the window
    /// (the oldest leaves), and it becomes the best pair where it scores
    /// higher. Returns whether the candidate should be verified: the best
    /// score is positive and the whole window equals it.
    pub fn observe(&mut self, pop_best: ScoredInputPair) -> (verify: bool)
        requires
            old(self).window_spec().len() == WINDOW_LEN,
        ensures
            final(self).window_spec() == old(self).window_spec().drop_first().push(pop_best.score),
            pop_best.score > old(self).best_spec().score ==> final(self).best_spec() == pop_best,
            pop_best.score <= old(self).best_spec().score ==> final(self).best_spec() == old(self).best_spec(),
            verify == (final(self).best_spec().score > 0
                && window_settled(final(self).window_spec(), final(self).best_spec().score)),
    {
        self.window.remove(0);
        assert(self.window@ =~= old(self).window@.drop_first());
        self.window.push(pop_best.score);
        if pop_best.score > self.best.score {
            self.best = pop_best;
        }
        self.best.score > 0 && all_equal(&self.window, self.best.score)
    }

    /// Forgets the best pair after the verifier rejected it: the best pair
    /// becomes the empty pair with a score of zero.
    pub fn reject(&mut self)
        ensures
            is_empty_default(final(self).best_spec()),
            final(self).window_spec() == old(self).window_spec(),
    {
        self.best = ScoredInputPair::default_pair();
    }

    /// Acts on the verifier's final verdict on the best pair: stops the fuzz
    /// command (`true`) on `Accept`, keeping the best pair as the witness;
    /// on anything else forgets the best pair and evolution resumes.
    pub fn conclude(&mut self, verdict: DudeResult) -> (stop: bool)
        ensures
            stop == (verdict is Accept),
            stop ==> final(self).best_spec() == old(self).best_spec(),
            !stop ==> is_empty_default(final(self).best_spec()),
            final(self).window_spec() == old(self).window_spec(),
    {
        match verdict {
            DudeResult::Accept => true,
            _ => {
                self.reject();
                false
            },
        }
    }
}

} // verus!
