// A genetic optimizer that evolves input pairs toward a higher fitness.

use crate::rng::{is_alphanumeric, is_utf8, random_alphanumeric, random_below, random_bytes, utf8_valid};
use crate::util::{InputPair, ScoredInputPair};
use vstd::prelude::*;

verus! {

/// Number of input pairs in a population.
pub const POPULATION_SIZE: usize = 200;

/// Chance, in percent, that a child is mutated.
pub const MUTATION_PERCENT: usize = 5;

/// Chance, in percent, that a mutation assigns a random byte rather than
/// stepping a byte up or down by one.
pub const LARGE_MUTATION_PERCENT: usize = 25;

/// Share, in percent, of the ranked population carried over unchanged.
pub const CLONE_PERCENT: usize = 10;

/// Share, in percent, of the ranked population that parents are drawn from.
pub const BREEDING_POOL_PERCENT: usize = 25;

/// Number of top-ranked pairs carried over unchanged.
pub const NUM_CLONE: usize = POPULATION_SIZE * CLONE_PERCENT / 100;

/// Number of top-ranked pairs that parents are drawn from.
pub const BREED_POOL: usize = POPULATION_SIZE * BREEDING_POOL_PERCENT / 100;

/// How many mutations a text input goes through, at most, to become valid
/// UTF-8 again.
pub const STR_REPAIR_ATTEMPTS: usize = 1000;

/// Both sides of the pair have `len` bytes.
pub open spec fn pair_has_len(p: InputPair, len: nat) -> bool {
    p.first@.len() == len && p.second@.len() == len
}

/// `a` and `b` agree at every position but `k`.
pub open spec fn same_except(a: Seq<u8>, b: Seq<u8>, k: int) -> bool {
    forall|j: int| 0 <= j < a.len() && j != k ==> #[trigger] a[j] == b[j]
}

/// `a` and `b` have the same length and differ in at most one position.
pub open spec fn differs_at_most_one(a: Seq<u8>, b: Seq<u8>) -> bool {
    a.len() == b.len() && exists|k: int| #[trigger] same_except(a, b, k)
}

/// Every byte of `child` is the byte at the same position of `a` or of `b`.
pub open spec fn is_crossover(child: Seq<u8>, a: Seq<u8>, b: Seq<u8>) -> bool {
    child.len() == a.len() && forall|i: int|
        0 <= i < child.len() ==> #[trigger] child[i] == a[i] || child[i] == b[i]
}

/// Every byte of `child` but the one at `k` is the byte at the same position
/// of `a` or of `b`.
pub open spec fn crossover_except(child: Seq<u8>, a: Seq<u8>, b: Seq<u8>, k: int) -> bool {
    forall|i: int| 0 <= i < child.len() && i != k ==> #[trigger] child[i] == a[i] || child[i] == b[i]
}

/// `child` is a per-byte crossover of `a` and `b`, with at most one byte
/// changed.
pub open spec fn near_crossover(child: Seq<u8>, a: Seq<u8>, b: Seq<u8>) -> bool {
    child.len() == a.len() && exists|k: int| #[trigger] crossover_except(child, a, b, k)
}

/// Each side of `child` is a near crossover of the same side of the
/// parents `p` and `q` (given by their bytes).
pub open spec fn bred_from(child: InputPair, p: (Seq<u8>, Seq<u8>), q: (Seq<u8>, Seq<u8>)) -> bool {
    &&& near_crossover(child.first@, p.0, q.0)
    &&& near_crossover(child.second@, p.1, q.1)
}

/// A ranked entry: a score and the bytes of a pair.
pub type RankedEntry = (i128, (Seq<u8>, Seq<u8>));

/// `child` was bred from two of the first `BREED_POOL` entries of `ranking`.
pub open spec fn has_parents_in_top(child: InputPair, ranking: Seq<RankedEntry>) -> bool {
    exists|j1: int, j2: int|
        0 <= j1 < BREED_POOL && 0 <= j2 < BREED_POOL && #[trigger] bred_from(child, ranking[j1].1, ranking[j2].1)
}

/// Scores are in descending order.
pub open spec fn ranking_sorted(r: Seq<RankedEntry>) -> bool {
    forall|i: int, j: int| 0 <= i < j < r.len() ==> #[trigger] r[i].0 >= #[trigger] r[j].0
}

/// The score and bytes of a scored pair.
pub open spec fn entry_view(e: ScoredInputPair) -> RankedEntry {
    (e.score, pair_view(e.pair))
}

/// The score and bytes of each scored pair.
pub open spec fn entry_views(s: Seq<ScoredInputPair>) -> Seq<RankedEntry> {
    s.map_values(|e: ScoredInputPair| entry_view(e))
}

proof fn lemma_mutated_crossover(x: Seq<u8>, c: Seq<u8>, a: Seq<u8>, b: Seq<u8>)
    requires
        is_crossover(x, a, b),
        differs_at_most_one(x, c),
    ensures
        near_crossover(c, a, b),
{
    let k = choose|k: int| #[trigger] same_except(x, c, k);
    assert forall|i: int| 0 <= i < c.len() && i != k implies #[trigger] c[i] == a[i] || c[i] == b[i] by {
        assert(x[i] == c[i]);
    }
    assert(crossover_except(c, a, b, k));
}

proof fn lemma_crossover_is_near(x: Seq<u8>, a: Seq<u8>, b: Seq<u8>)
    requires
        is_crossover(x, a, b),
    ensures
        near_crossover(x, a, b),
{
    assert(crossover_except(x, a, b, -1));
}

/// Both sides of the pair hold only ASCII letters and digits.
pub open spec fn pair_alphanumeric(p: InputPair) -> bool {
    &&& forall|j: int| 0 <= j < p.first@.len() ==> is_alphanumeric(#[trigger] p.first@[j])
    &&& forall|j: int| 0 <= j < p.second@.len() ==> is_alphanumeric(#[trigger] p.second@[j])
}

/// A population: `POPULATION_SIZE` pairs, both sides of each `len` bytes long.
pub open spec fn population_wf(pop: Seq<InputPair>, len: nat) -> bool {
    pop.len() == POPULATION_SIZE && forall|i: int|
        0 <= i < pop.len() ==> pair_has_len(#[trigger] pop[i], len)
}

fn breed_slice(first: &[u8], second: &[u8]) -> (child: Vec<u8>)
    requires
        first@.len() <= second@.len(),
    ensures
        is_crossover(child@, first@, second@),
{
    let mut child: Vec<u8> = Vec::with_capacity(first.len());
    let mut n: usize = 0;
    while n < first.len()
        invariant
            n <= first@.len(),
            first@.len() <= second@.len(),
            child@.len() == n,
            forall|i: int| 0 <= i < n ==> #[trigger] child@[i] == first@[i] || child@[i] == second@[i],
        decreases first@.len() - n,
    {
        if rand::random::<bool>() {
            child.push(first[n]);
        } else {
            child.push(second[n]);
        }
        n = n + 1;
    }
    child
}

fn copy_bytes(s: &[u8]) -> (r: Vec<u8>)
    ensures
        r@ == s@,
{
    let mut r: Vec<u8> = Vec::with_capacity(s.len());
    let mut i: usize = 0;
    while i < s.len()
        invariant
            i <= s@.len(),
            r@ == s@.take(i as int),
        decreases s@.len() - i,
    {
        r.push(s[i]);
        i = i + 1;
        assert(r@ =~= s@.take(i as int));
    }
    assert(s@.take(s@.len() as int) =~= s@);
    r
}

/// Breeds two text inputs: a per-byte crossover, which is the child where it
/// is valid UTF-8; else the crossover is mutated, one random byte at a time,
/// until it is valid. The repair stops after `STR_REPAIR_ATTEMPTS`
/// mutations, and the child is then a copy of `first`.
pub fn breed_str_slice(first: &[u8], second: &[u8]) -> (child: Vec<u8>)
    requires
        first@.len() == second@.len(),
    ensures
        child@.len() == first@.len(),
        utf8_valid(child@) || child@ == first@,
        utf8_valid(first@) ==> utf8_valid(child@),
        is_crossover(child@, first@, second@) || utf8_valid(child@),
{
    let mut child: Vec<u8> = breed_slice(first, second);
    let mut attempts: usize = 0;
    while attempts < STR_REPAIR_ATTEMPTS
        invariant
            child@.len() == first@.len(),
            first@.len() == second@.len(),
            attempts == 0 ==> is_crossover(child@, first@, second@),
        decreases STR_REPAIR_ATTEMPTS - attempts,
    {
        if is_utf8(child.as_slice()) {
            return child;
        }
        mutate_slice(child.as_mut_slice());
        attempts = attempts + 1;
    }
    if is_utf8(child.as_slice()) {
        return child;
    }
    let copy = copy_bytes(first);
    assert(is_crossover(copy@, first@, second@));
    copy
}

fn mutate_slice(slice: &mut [u8])
    ensures
        differs_at_most_one(old(slice)@, final(slice)@),
{
    if slice.len() == 0 {
        assert(same_except(old(slice)@, slice@, 0));
        return;
    }
    let k = random_below(slice.len());
    let gene = slice[k];
    let new_gene: u8 = if random_below(100) < LARGE_MUTATION_PERCENT {
        rand::random::<u8>()
    } else if rand::random::<bool>() {
        gene.wrapping_add(1)
    } else {
        gene.wrapping_sub(1)
    };
    slice[k] = new_gene;
    assert(same_except(old(slice)@, slice@, k as int));
}

/// Mutates a text input until it is valid UTF-8 again: each attempt changes
/// at most one random byte of a working copy, and the copy replaces the input
/// once it is valid. Where that does not happen within
/// `STR_REPAIR_ATTEMPTS` attempts, the input is left as it was (so valid
/// text stays valid).
pub fn mutate_str_slice(slice: &mut [u8])
    ensures
        final(slice)@.len() == old(slice)@.len(),
        utf8_valid(final(slice)@) || final(slice)@ == old(slice)@,
        utf8_valid(old(slice)@) ==> utf8_valid(final(slice)@),
{
    let mut candidate: Vec<u8> = copy_bytes(slice);
    let mut attempts: usize = 0;
    while attempts < STR_REPAIR_ATTEMPTS
        invariant
            candidate@.len() == slice@.len(),
            slice@ == old(slice)@,
        decreases STR_REPAIR_ATTEMPTS - attempts,
    {
        mutate_slice(candidate.as_mut_slice());
        if is_utf8(candidate.as_slice()) {
            let mut i: usize = 0;
            while i < slice.len()
                invariant
                    i <= slice@.len(),
                    candidate@.len() == slice@.len(),
                    slice@.len() == old(slice)@.len(),
                    forall|j: int| 0 <= j < i ==> #[trigger] slice@[j] == candidate@[j],
                decreases slice@.len() - i,
            {
                slice[i] = candidate[i];
                i = i + 1;
            }
            assert(slice@ =~= candidate@);
            return;
        }
        attempts = attempts + 1;
    }
}

fn random_individual(len: usize) -> (r: InputPair)
    ensures
        pair_has_len(r, len as nat),
        !r.is_str,
{
    InputPair { first: random_bytes(len), second: random_bytes(len), is_str: false }
}

fn random_str_individual(len: usize) -> (r: InputPair)
    ensures
        pair_has_len(r, len as nat),
        r.is_str,
        pair_alphanumeric(r),
{
    InputPair { first: random_alphanumeric(len), second: random_alphanumeric(len), is_str: true }
}

/// A population of `POPULATION_SIZE` random pairs of `len` bytes per side:
/// uniformly random bytes, or ASCII letters and digits where `is_str`.
pub fn inital_population(len: usize, is_str: bool) -> (population: Vec<InputPair>)
    ensures
        population_wf(population@, len as nat),
        forall|i: int| 0 <= i < population@.len() ==> (#[trigger] population@[i]).is_str == is_str,
        is_str ==> forall|i: int| 0 <= i < population@.len() ==> pair_alphanumeric(#[trigger] population@[i]),
{
    let mut population: Vec<InputPair> = Vec::with_capacity(POPULATION_SIZE);
    let mut n: usize = 0;
    while n < POPULATION_SIZE
        invariant
            n <= POPULATION_SIZE,
            population@.len() == n,
            forall|i: int| 0 <= i < n ==> pair_has_len(#[trigger] population@[i], len as nat),
            forall|i: int| 0 <= i < n ==> (#[trigger] population@[i]).is_str == is_str,
            is_str ==> forall|i: int| 0 <= i < n ==> pair_alphanumeric(#[trigger] population@[i]),
        decreases POPULATION_SIZE - n,
    {
        if is_str {
            population.push(random_str_individual(len));
        } else {
            population.push(random_individual(len));
        }
        n = n + 1;
    }
    population
}

/// Scores are in descending order.
pub open spec fn sorted_by_score(s: Seq<ScoredInputPair>) -> bool {
    forall|i: int, j: int| 0 <= i < j < s.len() ==> #[trigger] s[i].score >= #[trigger] s[j].score
}

/// Inserts `item` after every entry whose score is at least its own, keeping
/// `sorted` in descending order of score.
fn insert_by_score(sorted: &mut Vec<ScoredInputPair>, item: ScoredInputPair) -> (p: usize)
    requires
        sorted_by_score(old(sorted)@),
    ensures
        p <= old(sorted)@.len(),
        final(sorted)@ == old(sorted)@.insert(p as int, item),
        sorted_by_score(final(sorted)@),
        final(sorted)@.to_multiset() == old(sorted)@.to_multiset().insert(item),
        final(sorted)@.len() == old(sorted)@.len() + 1,
{
    broadcast use vstd::seq_lib::group_to_multiset_ensures;

    let mut p: usize = 0;
    while p < sorted.len() && sorted[p].score >= item.score
        invariant
            p <= sorted@.len(),
            forall|i: int| 0 <= i < p ==> #[trigger] sorted@[i].score >= item.score,
        decreases sorted@.len() - p,
    {
        p = p + 1;
    }
    proof {
        vstd::seq_lib::to_multiset_insert(sorted@, p as int, item);
    }
    sorted.insert(p, item);
    p
}

/// The bytes of both sides of a pair.
pub open spec fn pair_view(p: InputPair) -> (Seq<u8>, Seq<u8>) {
    (p.first@, p.second@)
}

fn copy_pair(p: &InputPair) -> (r: InputPair)
    ensures
        pair_view(r) == pair_view(*p),
        r.is_str == p.is_str,
{
    InputPair {
        first: p.first.clone(),
        second: p.second.clone(),
        is_str: p.is_str,
    }
}

/// A genetic optimizer over input pairs of a fixed length. The fitness
/// function scores a pair from its two sides; higher is fitter.
pub struct Optimizer<T> where T: Fn(&Vec<u8>, &Vec<u8>) -> ScoredInputPair {
    population: Vec<InputPair>,
    fitness: T,
    input_is_str: bool,
    len: usize,
}

impl<T> Optimizer<T> where T: Fn(&Vec<u8>, &Vec<u8>) -> ScoredInputPair {
    /// The current population.
    pub closed spec fn population_spec(&self) -> Seq<InputPair> {
        self.population@
    }

    /// The byte views of the current population.
    pub open spec fn population_views(&self) -> Seq<(Seq<u8>, Seq<u8>)> {
        self.population_spec().map_values(|p: InputPair| pair_view(p))
    }

    /// The length of each side of each pair.
    pub closed spec fn input_len_spec(&self) -> nat {
        self.len as nat
    }

    /// Whether the pairs are text.
    pub closed spec fn is_str_spec(&self) -> bool {
        self.input_is_str
    }

    /// The fitness function.
    pub closed spec fn fitness_spec(&self) -> T {
        self.fitness
    }

    /// `outs` holds one result of the fitness function per pair of the
    /// population, and `ranking` lists each pair's bytes with the score of its
    /// result, in descending order of score.
    pub open spec fn is_ranking(&self, outs: Seq<ScoredInputPair>, ranking: Seq<RankedEntry>) -> bool {
        &&& outs.len() == POPULATION_SIZE
        &&& ranking.len() == POPULATION_SIZE
        &&& ranking_sorted(ranking)
        &&& forall|i: int|
            0 <= i < POPULATION_SIZE ==> call_ensures(
                self.fitness_spec(),
                (&self.population_spec()[i].first, &self.population_spec()[i].second),
                #[trigger] outs[i],
            )
        &&& ranking.to_multiset() == Seq::new(
            POPULATION_SIZE as nat,
            |i: int| (outs[i].score, pair_view(self.population_spec()[i])),
        ).to_multiset()
    }

    /// `next` is a generation bred from this population by `ranking`: its
    /// first `NUM_CLONE` pairs are the first `NUM_CLONE` ranked pairs, in
    /// order, and (for byte inputs) every other pair was bred from two of the
    /// first `BREED_POOL` ranked pairs.
    pub open spec fn is_next_generation(
        &self,
        next: Seq<InputPair>,
        outs: Seq<ScoredInputPair>,
        ranking: Seq<RankedEntry>,
    ) -> bool {
        &&& self.is_ranking(outs, ranking)
        &&& next.len() == POPULATION_SIZE
        &&& forall|k: int| 0 <= k < NUM_CLONE ==> pair_view(#[trigger] next[k]) == ranking[k].1
        &&& !self.is_str_spec() ==> forall|k: int|
            NUM_CLONE <= k < POPULATION_SIZE ==> #[trigger] has_parents_in_top(next[k], ranking)
    }

    /// Elitism keeps the best pair: the first pair of a next generation is a
    /// pair of this population whose fitness result scores at least as high
    /// as every other pair's.
    pub proof fn lemma_best_survives(
        &self,
        next: Seq<InputPair>,
        outs: Seq<ScoredInputPair>,
        ranking: Seq<RankedEntry>,
    )
        requires
            self.is_next_generation(next, outs, ranking),
        ensures
            exists|j: int| 0 <= j < POPULATION_SIZE
                && pair_view(next[0]) == pair_view(#[trigger] self.population_spec()[j])
                && outs[j].score == ranking[0].0,
            forall|i: int| 0 <= i < POPULATION_SIZE ==> (#[trigger] outs[i]).score <= ranking[0].0,
    {
        broadcast use vstd::seq_lib::group_to_multiset_ensures;

        let base = Seq::new(
            POPULATION_SIZE as nat,
            |i: int| (outs[i].score, pair_view(self.population_spec()[i])),
        );
        vstd::seq_lib::to_multiset_contains(ranking, ranking[0]);
        vstd::seq_lib::to_multiset_contains(base, ranking[0]);
        let j = base.index_of(ranking[0]);
        assert(base[j] == ranking[0]);
        assert forall|i: int| 0 <= i < POPULATION_SIZE implies (#[trigger] outs[i]).score <= ranking[0].0 by {
            assert(base[i] == (outs[i].score, pair_view(self.population_spec()[i])));
            vstd::seq_lib::to_multiset_contains(base, base[i]);
            vstd::seq_lib::to_multiset_contains(ranking, base[i]);
            let k = ranking.index_of(base[i]);
            if k > 0 {
                assert(ranking[0].0 >= ranking[k].0);
            }
        }
    }

    /// The population is well formed and the fitness function accepts every
    /// pair of inputs.
    pub open spec fn wf(&self) -> bool {
        &&& population_wf(self.population_spec(), self.input_len_spec())
        &&& forall|a: &Vec<u8>, b: &Vec<u8>| #[trigger] call_requires(self.fitness_spec(), (a, b))
    }

    /// At every observation point the population has `POPULATION_SIZE`
    /// pairs, both sides of each have the declared length, and every byte
    /// is in `0..=255`.
    pub proof fn lemma_population_invariant(&self)
        requires
            self.wf(),
        ensures
            self.population_spec().len() == POPULATION_SIZE,
            forall|i: int| 0 <= i < POPULATION_SIZE ==> {
                &&& (#[trigger] self.population_spec()[i]).first@.len() == self.input_len_spec()
                &&& self.population_spec()[i].second@.len() == self.input_len_spec()
            },
            forall|i: int, j: int| 0 <= i < POPULATION_SIZE && 0 <= j < self.input_len_spec() ==> {
                &&& 0 <= #[trigger] self.population_spec()[i].first@[j] <= 255
                &&& 0 <= self.population_spec()[i].second@[j] <= 255
            },
    {
        assert forall|i: int| 0 <= i < POPULATION_SIZE implies {
            &&& (#[trigger] self.population_spec()[i]).first@.len() == self.input_len_spec()
            &&& self.population_spec()[i].second@.len() == self.input_len_spec()
        } by {
            assert(pair_has_len(self.population_spec()[i], self.input_len_spec()));
        }
    }

    /// An optimizer whose first population is random, with sides of `len`
    /// bytes (ASCII letters and digits where `input_is_str`).
    pub fn new(len: usize, fitness_function: T, input_is_str: bool) -> (r: Self)
        requires
            forall|a: &Vec<u8>, b: &Vec<u8>| #[trigger] call_requires(fitness_function, (a, b)),
        ensures
            r.wf(),
            r.input_len_spec() == len,
            r.is_str_spec() == input_is_str,
            r.fitness_spec() == fitness_function,
            forall|i: int| 0 <= i < POPULATION_SIZE ==> (#[trigger] r.population_spec()[i]).is_str == input_is_str,
            input_is_str ==> forall|i: int| 0 <= i < POPULATION_SIZE ==> pair_alphanumeric(#[trigger] r.population_spec()[i]),
    {
        Optimizer {
            population: inital_population(len, input_is_str),
            fitness: fitness_function,
            input_is_str,
            len,
        }
    }

    /// The current population.
    pub fn population(&self) -> (r: &Vec<InputPair>)
        ensures
            r@ == self.population_spec(),
    {
        &self.population
    }

    /// Scores every pair of the population and returns the results of the
    /// fitness function, fittest first.
    pub fn scored_population(&self) -> (r: Vec<ScoredInputPair>)
        requires
            self.wf(),
        ensures
            r@.len() == POPULATION_SIZE,
            sorted_by_score(r@),
            exists|outs: Seq<ScoredInputPair>|
                {
                    &&& outs.len() == POPULATION_SIZE
                    &&& r@.to_multiset() == outs.to_multiset()
                    &&& forall|i: int|
                        0 <= i < POPULATION_SIZE ==> call_ensures(
                            self.fitness_spec(),
                            (&self.population_spec()[i].first, &self.population_spec()[i].second),
                            #[trigger] outs[i],
                        )
                },
    {
        broadcast use vstd::seq_lib::group_to_multiset_ensures;

        let mut scored: Vec<ScoredInputPair> = Vec::with_capacity(POPULATION_SIZE);
        let ghost mut outs: Seq<ScoredInputPair> = Seq::empty();
        let mut i: usize = 0;
        while i < self.population.len()
            invariant
                self.wf(),
                i <= self.population@.len(),
                outs.len() == i,
                scored@.len() == i,
                sorted_by_score(scored@),
                scored@.to_multiset() == outs.to_multiset(),
                forall|k: int|
                    0 <= k < i ==> call_ensures(
                        self.fitness,
                        (&self.population@[k].first, &self.population@[k].second),
                        #[trigger] outs[k],
                    ),
            decreases self.population@.len() - i,
        {
            let individual = &self.population[i];
            assert(call_requires(self.fitness_spec(), (&individual.first, &individual.second)));
            let out = (self.fitness)(&individual.first, &individual.second);
            proof {
                vstd::seq_lib::to_multiset_build(outs, out);
                outs = outs.push(out);
            }
            insert_by_score(&mut scored, out);
            i = i + 1;
        }
        scored
    }

    /// Scores every pair and returns copies of the pairs with their scores,
    /// fittest first.
    fn rank(&self) -> (r: Vec<ScoredInputPair>)
        requires
            self.wf(),
        ensures
            r@.len() == POPULATION_SIZE,
            sorted_by_score(r@),
            forall|k: int| 0 <= k < r@.len() ==>
                self.population_views().contains(pair_view(#[trigger] r@[k].pair)),
            exists|outs: Seq<ScoredInputPair>| #[trigger] self.is_ranking(outs, entry_views(r@)),
    {
        broadcast use vstd::seq_lib::group_to_multiset_ensures;

        let mut ranked: Vec<ScoredInputPair> = Vec::with_capacity(POPULATION_SIZE);
        let ghost mut outs: Seq<ScoredInputPair> = Seq::empty();
        let mut i: usize = 0;
        while i < self.population.len()
            invariant
                self.wf(),
                i <= self.population@.len(),
                ranked@.len() == i,
                sorted_by_score(ranked@),
                forall|k: int| 0 <= k < ranked@.len() ==>
                    self.population_views().contains(pair_view(#[trigger] ranked@[k].pair)),
                outs.len() == i,
                forall|k: int|
                    0 <= k < i ==> call_ensures(
                        self.fitness,
                        (&self.population@[k].first, &self.population@[k].second),
                        #[trigger] outs[k],
                    ),
                entry_views(ranked@).to_multiset() == Seq::new(
                    i as nat,
                    |k: int| (outs[k].score, pair_view(self.population@[k])),
                ).to_multiset(),
            decreases self.population@.len() - i,
        {
            let individual = &self.population[i];
            assert(call_requires(self.fitness_spec(), (&individual.first, &individual.second)));
            let out = (self.fitness)(&individual.first, &individual.second);
            let entry = ScoredInputPair {
                score: out.score,
                highest: out.highest,
                lowest: out.lowest,
                pair: copy_pair(individual),
            };
            assert(self.population_views()[i as int] == pair_view(entry.pair));
            let ghost before = ranked@;
            let ghost old_outs = outs;
            proof {
                outs = outs.push(out);
                let ev = (out.score, pair_view(self.population@[i as int]));
                assert(Seq::new((i + 1) as nat, |k: int| (outs[k].score, pair_view(self.population@[k])))
                    =~= Seq::new(i as nat, |k: int| (old_outs[k].score, pair_view(self.population@[k]))).push(ev));
                vstd::seq_lib::to_multiset_build(
                    Seq::new(i as nat, |k: int| (old_outs[k].score, pair_view(self.population@[k]))), ev);
                assert(entry_view(entry) == ev);
            }
            let p = insert_by_score(&mut ranked, entry);
            proof {
                assert(entry_views(ranked@) =~= entry_views(before).insert(p as int, entry_view(entry)));
                vstd::seq_lib::to_multiset_insert(entry_views(before), p as int, entry_view(entry));
            }
            assert forall|k: int| 0 <= k < ranked@.len() implies
                self.population_views().contains(pair_view(#[trigger] ranked@[k].pair)) by {
                if k < p {
                    assert(ranked@[k] == before[k]);
                } else if k > p {
                    assert(ranked@[k] == before[k - 1]);
                }
            }
            i = i + 1;
        }
        proof {
            assert forall|a: int, b: int| 0 <= a < b < POPULATION_SIZE implies
                #[trigger] entry_views(ranked@)[a].0 >= #[trigger] entry_views(ranked@)[b].0 by {
                assert(ranked@[a].score >= ranked@[b].score);
            }
            assert(self.is_ranking(outs, entry_views(ranked@)));
        }
        ranked
    }

    /// One generation: ranks the population by fitness, carries the
    /// `NUM_CLONE` fittest pairs over unchanged and in rank order, and fills
    /// the rest with children of two parents drawn from the `BREED_POOL`
    /// fittest: a per-byte crossover of each side, mutated in one byte with a
    /// chance of `MUTATION_PERCENT` percent. (Text children are repaired to
    /// valid UTF-8 as `breed_str_slice` and `mutate_str_slice` say.)
    pub fn step(&mut self)
        requires
            old(self).wf(),
        ensures
            final(self).wf(),
            final(self).input_len_spec() == old(self).input_len_spec(),
            final(self).is_str_spec() == old(self).is_str_spec(),
            final(self).fitness_spec() == old(self).fitness_spec(),
            exists|outs: Seq<ScoredInputPair>, ranking: Seq<RankedEntry>|
                #[trigger] old(self).is_next_generation(final(self).population_spec(), outs, ranking),
    {
        let ranked = self.rank();
        let ghost ranking = entry_views(ranked@);
        let ghost outs = choose|outs: Seq<ScoredInputPair>| #[trigger] self.is_ranking(outs, entry_views(ranked@));
        let mut next_gen: Vec<InputPair> = Vec::with_capacity(POPULATION_SIZE);
        let mut i: usize = 0;
        while i < NUM_CLONE
            invariant
                self.wf(),
                i <= NUM_CLONE,
                next_gen@.len() == i,
                ranked@.len() == POPULATION_SIZE,
                ranking == entry_views(ranked@),
                forall|k: int| 0 <= k < ranked@.len() ==>
                    self.population_views().contains(pair_view(#[trigger] ranked@[k].pair)),
                forall|k: int| 0 <= k < i ==> pair_view(#[trigger] next_gen@[k]) == ranking[k].1,
            decreases NUM_CLONE - i,
        {
            next_gen.push(copy_pair(&ranked[i].pair));
            i = i + 1;
        }
        proof {
            assert forall|k: int| 0 <= k < ranked@.len() implies
                pair_has_len(#[trigger] ranked@[k].pair, self.len as nat) by {
                let j = self.population_views().index_of(pair_view(ranked@[k].pair));
                assert(pair_has_len(self.population@[j], self.len as nat));
            }
            assert forall|k: int| 0 <= k < next_gen@.len() implies
                pair_has_len(#[trigger] next_gen@[k], self.len as nat) by {
                assert(pair_view(next_gen@[k]) == pair_view(ranked@[k].pair));
                assert(pair_has_len(ranked@[k].pair, self.len as nat));
            }
        }
        while i < POPULATION_SIZE
            invariant
                self.wf(),
                NUM_CLONE <= i <= POPULATION_SIZE,
                next_gen@.len() == i,
                ranked@.len() == POPULATION_SIZE,
                ranking == entry_views(ranked@),
                forall|k: int| 0 <= k < ranked@.len() ==>
                    pair_has_len(#[trigger] ranked@[k].pair, self.len as nat),
                forall|k: int| 0 <= k < i ==> pair_has_len(#[trigger] next_gen@[k], self.len as nat),
                forall|k: int| 0 <= k < NUM_CLONE ==> pair_view(#[trigger] next_gen@[k]) == ranking[k].1,
                !self.input_is_str ==> forall|k: int| NUM_CLONE <= k < i ==>
                    #[trigger] has_parents_in_top(next_gen@[k], ranking),
            decreases POPULATION_SIZE - i,
        {
            let r1 = random_below(BREED_POOL);
            let r2 = random_below(BREED_POOL);
            let parent_one = &ranked[r1].pair;
            let parent_two = &ranked[r2].pair;
            let mut child = if self.input_is_str {
                InputPair {
                    first: breed_str_slice(parent_one.first.as_slice(), parent_two.first.as_slice()),
                    second: breed_str_slice(parent_one.second.as_slice(), parent_two.second.as_slice()),
                    is_str: true,
                }
            } else {
                InputPair {
                    first: breed_slice(parent_one.first.as_slice(), parent_two.first.as_slice()),
                    second: breed_slice(parent_one.second.as_slice(), parent_two.second.as_slice()),
                    is_str: false,
                }
            };
            let ghost bred = child;
            if random_below(100) < MUTATION_PERCENT {
                if rand::random::<bool>() {
                    if self.input_is_str {
                        mutate_str_slice(child.first.as_mut_slice());
                    } else {
                        mutate_slice(child.first.as_mut_slice());
                    }
                } else {
                    if self.input_is_str {
                        mutate_str_slice(child.second.as_mut_slice());
                    } else {
                        mutate_slice(child.second.as_mut_slice());
                    }
                }
            }
            proof {
                if !self.input_is_str {
                    if child.first@ == bred.first@ {
                        lemma_crossover_is_near(child.first@, parent_one.first@, parent_two.first@);
                    } else {
                        lemma_mutated_crossover(bred.first@, child.first@, parent_one.first@, parent_two.first@);
                    }
                    if child.second@ == bred.second@ {
                        lemma_crossover_is_near(child.second@, parent_one.second@, parent_two.second@);
                    } else {
                        lemma_mutated_crossover(bred.second@, child.second@, parent_one.second@, parent_two.second@);
                    }
                    assert(ranking[r1 as int].1 == pair_view(*parent_one));
                    assert(ranking[r2 as int].1 == pair_view(*parent_two));
                    assert(bred_from(child, ranking[r1 as int].1, ranking[r2 as int].1));
                }
            }
            next_gen.push(child);
            proof {
                if !self.input_is_str {
                    assert(bred_from(next_gen@[i as int], ranking[r1 as int].1, ranking[r2 as int].1));
                    assert(has_parents_in_top(next_gen@[i as int], ranking));
                }
            }
            i = i + 1;
        }
        assert(self.is_next_generation(next_gen@, outs, ranking));
        let ghost before = *self;
        self.population = next_gen;
        assert forall|a: &Vec<u8>, b: &Vec<u8>| #[trigger]
            call_requires(self.fitness_spec(), (a, b)) by {
            assert(call_requires(before.fitness_spec(), (a, b)));
        }
    }
}

} // verus!
