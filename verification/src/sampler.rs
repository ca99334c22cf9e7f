//! The key sampler: picks a key out of a fixed set of candidates, in order,
//! uniformly, or with the skew of a histogram that was drawn once.

use crate::entropy::{
    is_random_key, random_key, table_weights, total_weight, uniform_index, weighted_pick,
    weighted_table, WeightedTable,
};
use crate::text::same_text;
use std::sync::atomic::{AtomicUsize, Ordering};
use vstd::arithmetic::div_mod::{
    lemma_add_mod_noop, lemma_fundamental_div_mod, lemma_mod_add_multiples_vanish,
    lemma_mod_bound, lemma_mod_multiples_vanish, lemma_small_mod,
};
use vstd::prelude::*;

verus! {

/// The shape of the key distribution.
#[derive(Clone, Copy, Debug, PartialEq, Eq, Structural)]
pub enum DistributionKind {
    Sequential,
    Uniform,
    Normal,
    Poisson,
    Binomial,
    Geometric,
    Zipf,
}

impl DistributionKind {
    /// The kind that a name selects; a name that is not known selects the
    /// uniform distribution.
    pub open spec fn spec_from_name(name: Seq<char>) -> DistributionKind {
        if name == "sequential"@ {
            DistributionKind::Sequential
        } else if name == "uniform"@ {
            DistributionKind::Uniform
        } else if name == "normal"@ {
            DistributionKind::Normal
        } else if name == "poisson"@ {
            DistributionKind::Poisson
        } else if name == "binomial"@ {
            DistributionKind::Binomial
        } else if name == "geometric"@ {
            DistributionKind::Geometric
        } else if name == "zipf"@ {
            DistributionKind::Zipf
        } else {
            DistributionKind::Uniform
        }
    }

    /// The name of the kind.
    pub open spec fn spec_name(self) -> Seq<char> {
        match self {
            DistributionKind::Sequential => "sequential"@,
            DistributionKind::Uniform => "uniform"@,
            DistributionKind::Normal => "normal"@,
            DistributionKind::Poisson => "poisson"@,
            DistributionKind::Binomial => "binomial"@,
            DistributionKind::Geometric => "geometric"@,
            DistributionKind::Zipf => "zipf"@,
        }
    }

    /// Whether keys of this kind are picked through a table of weights.
    pub open spec fn is_weighted(self) -> bool {
        self != DistributionKind::Sequential && self != DistributionKind::Uniform
    }

    /// The kind that a name selects; a name that is not known selects the
    /// uniform distribution.
    pub fn from_name(name: &str) -> (kind: DistributionKind)
        ensures
            kind == DistributionKind::spec_from_name(name@),
    {
        if same_text(name, "sequential") {
            DistributionKind::Sequential
        } else if same_text(name, "uniform") {
            DistributionKind::Uniform
        } else if same_text(name, "normal") {
            DistributionKind::Normal
        } else if same_text(name, "poisson") {
            DistributionKind::Poisson
        } else if same_text(name, "binomial") {
            DistributionKind::Binomial
        } else if same_text(name, "geometric") {
            DistributionKind::Geometric
        } else if same_text(name, "zipf") {
            DistributionKind::Zipf
        } else {
            DistributionKind::Uniform
        }
    }

    /// The name of the kind.
    pub fn name(self) -> (name: &'static str)
        ensures
            name@ == self.spec_name(),
    {
        match self {
            DistributionKind::Sequential => "sequential",
            DistributionKind::Uniform => "uniform",
            DistributionKind::Normal => "normal",
            DistributionKind::Poisson => "poisson",
            DistributionKind::Binomial => "binomial",
            DistributionKind::Geometric => "geometric",
            DistributionKind::Zipf => "zipf",
        }
    }

    /// Whether keys of this kind are picked through a table of weights.
    pub fn weighted(self) -> (weighted: bool)
        ensures
            weighted == self.is_weighted(),
    {
        match self {
            DistributionKind::Sequential => false,
            DistributionKind::Uniform => false,
            _ => true,
        }
    }
}

/// Every kind is selected by its own name.
pub proof fn lemma_name_selects_kind(kind: DistributionKind)
    ensures
        DistributionKind::spec_from_name(kind.spec_name()) == kind,
{
    reveal_strlit("sequential");
    reveal_strlit("uniform");
    reveal_strlit("normal");
    reveal_strlit("poisson");
    reveal_strlit("binomial");
    reveal_strlit("geometric");
    reveal_strlit("zipf");
    assert("sequential"@[0] == 's');
    assert("uniform"@[0] == 'u');
    assert("normal"@[0] == 'n');
    assert("poisson"@[0] == 'p');
    assert("binomial"@[0] == 'b');
    assert("geometric"@[0] == 'g');
    assert("zipf"@[0] == 'z');
}

/// Whether a draw falls on the index of a key: it is not negative and
/// below the number of keys.
pub open spec fn in_range(draw: i64, cardinality: nat) -> bool {
    0 <= draw < cardinality
}

/// Number of draws that fell on `index`.
pub open spec fn occurrences(draws: Seq<i64>, index: int) -> nat
    decreases draws.len(),
{
    if draws.len() == 0 {
        0
    } else {
        occurrences(draws.drop_last(), index) + if draws.last() == index {
            1nat
        } else {
            0nat
        }
    }
}

/// Number of draws that fell on the index of a key.
pub open spec fn draws_in_range(draws: Seq<i64>, cardinality: nat) -> nat
    decreases draws.len(),
{
    if draws.len() == 0 {
        0
    } else {
        draws_in_range(draws.drop_last(), cardinality) + if in_range(draws.last(), cardinality) {
            1nat
        } else {
            0nat
        }
    }
}

/// The weights that a sequence of draws gives to the indices below
/// `cardinality`: each index weighs as many as the draws that fell on it.
/// A draw that is negative, or at or past `cardinality`, counts nowhere.
pub open spec fn histogram(draws: Seq<i64>, cardinality: nat) -> Seq<usize> {
    Seq::new(cardinality, |index: int| occurrences(draws, index) as usize)
}

/// No index has more occurrences than there are draws.
pub proof fn lemma_occurrences_bound(draws: Seq<i64>, index: int)
    ensures
        occurrences(draws, index) <= draws.len(),
    decreases draws.len(),
{
    if draws.len() > 0 {
        lemma_occurrences_bound(draws.drop_last(), index);
    }
}

/// No more draws are in range than there are draws.
pub proof fn lemma_draws_in_range_bound(draws: Seq<i64>, cardinality: nat)
    ensures
        draws_in_range(draws, cardinality) <= draws.len(),
    decreases draws.len(),
{
    if draws.len() > 0 {
        lemma_draws_in_range_bound(draws.drop_last(), cardinality);
    }
}

/// Weights that are all zero add up to zero.
proof fn lemma_total_of_zeros(weights: Seq<usize>)
    requires
        forall|i: int| 0 <= i < weights.len() ==> weights[i] == 0,
    ensures
        total_weight(weights) == 0,
    decreases weights.len(),
{
    if weights.len() > 0 {
        lemma_total_of_zeros(weights.drop_last());
    }
}

/// Raising one weight by one raises the sum by one.
proof fn lemma_total_after_increment(weights: Seq<usize>, index: int)
    requires
        0 <= index < weights.len(),
        weights[index] < usize::MAX,
    ensures
        total_weight(weights.update(index, (weights[index] + 1) as usize)) == total_weight(
            weights,
        ) + 1,
    decreases weights.len(),
{
    let raised = weights.update(index, (weights[index] + 1) as usize);
    if index == weights.len() - 1 {
        assert(raised.drop_last() =~= weights.drop_last());
    } else {
        lemma_total_after_increment(weights.drop_last(), index);
        assert(raised.drop_last() =~= weights.drop_last().update(
            index,
            (weights[index] + 1) as usize,
        ));
    }
}

/// One more draw raises the weight of the index it fell on by one and
/// leaves the histogram as it was if it fell out of range.
pub proof fn lemma_histogram_step(draws: Seq<i64>, draw: i64, cardinality: nat)
    requires
        draws.len() < usize::MAX,
    ensures
        in_range(draw, cardinality) ==> histogram(draws.push(draw), cardinality) == histogram(
            draws,
            cardinality,
        ).update(draw as int, (histogram(draws, cardinality)[draw as int] + 1) as usize),
        !in_range(draw, cardinality) ==> histogram(draws.push(draw), cardinality) == histogram(
            draws,
            cardinality,
        ),
        in_range(draw, cardinality) ==> histogram(draws, cardinality)[draw as int] < usize::MAX,
{
    let before = histogram(draws, cardinality);
    let after = histogram(draws.push(draw), cardinality);
    assert(draws.push(draw).drop_last() =~= draws);
    assert forall|i: int| 0 <= i < cardinality implies #[trigger] after[i] == if i == draw {
        (before[i] + 1) as usize
    } else {
        before[i]
    } by {
        lemma_occurrences_bound(draws, i);
    }
    if in_range(draw, cardinality) {
        lemma_occurrences_bound(draws, draw as int);
        assert(after =~= before.update(draw as int, (before[draw as int] + 1) as usize));
    } else {
        assert(after =~= before);
    }
}

/// The weights of a histogram add up to the number of draws in range.
pub proof fn lemma_histogram_total(draws: Seq<i64>, cardinality: nat)
    requires
        draws.len() <= usize::MAX,
    ensures
        total_weight(histogram(draws, cardinality)) == draws_in_range(draws, cardinality),
        total_weight(histogram(draws, cardinality)) <= draws.len(),
    decreases draws.len(),
{
    lemma_draws_in_range_bound(draws, cardinality);
    if draws.len() == 0 {
        lemma_total_of_zeros(histogram(draws, cardinality));
    } else {
        let init = draws.drop_last();
        let draw = draws.last();
        lemma_histogram_total(init, cardinality);
        lemma_histogram_step(init, draw, cardinality);
        assert(init.push(draw) =~= draws);
        if in_range(draw, cardinality) {
            lemma_total_after_increment(histogram(init, cardinality), draw as int);
        }
    }
}

/// Whether a draw fell on `index`.
pub open spec fn fell_on(draws: Seq<i64>, index: int) -> bool {
    exists|j: int| 0 <= j < draws.len() && #[trigger] draws[j] == index
}

/// The weight of an index is the number of draws that fell on it, and is
/// positive exactly if a draw fell on it.
pub proof fn lemma_histogram_weight(draws: Seq<i64>, cardinality: nat, index: int)
    requires
        draws.len() <= usize::MAX,
        0 <= index < cardinality,
    ensures
        histogram(draws, cardinality)[index] == occurrences(draws, index),
        histogram(draws, cardinality)[index] > 0 <==> fell_on(draws, index),
{
    lemma_occurrences_bound(draws, index);
    lemma_occurrences_positive(draws, index);
}

/// An index occurs among the draws exactly if a draw fell on it.
proof fn lemma_occurrences_positive(draws: Seq<i64>, index: int)
    ensures
        occurrences(draws, index) > 0 <==> fell_on(draws, index),
    decreases draws.len(),
{
    if draws.len() > 0 {
        let init = draws.drop_last();
        lemma_occurrences_positive(init, index);
        if draws.last() == index {
            assert(draws[draws.len() - 1] == index);
        } else if fell_on(init, index) {
            let i = choose|i: int| 0 <= i < init.len() && #[trigger] init[i] == index;
            assert(draws[i] == index);
        } else if fell_on(draws, index) {
            let i = choose|i: int| 0 <= i < draws.len() && #[trigger] draws[i] == index;
            assert(init[i] == index);
        }
    }
}

/// Builds the histogram of the draws over the indices below `cardinality`.
pub fn build_histogram(draws: &Vec<i64>, cardinality: usize) -> (weights: Vec<usize>)
    ensures
        weights@ == histogram(draws@, cardinality as nat),
        total_weight(weights@) == draws_in_range(draws@, cardinality as nat),
        total_weight(weights@) <= draws@.len(),
{
    let mut weights: Vec<usize> = vec![0; cardinality];
    assert(weights@ =~= histogram(draws@.take(0), cardinality as nat));
    let mut i: usize = 0;
    while i < draws.len()
        invariant
            i <= draws.len(),
            weights@ == histogram(draws@.take(i as int), cardinality as nat),
        decreases draws.len() - i,
    {
        let draw: i64 = draws[i];
        proof {
            lemma_histogram_step(draws@.take(i as int), draw, cardinality as nat);
            assert(draws@.take(i as int).push(draw) =~= draws@.take(i + 1));
        }
        if draw >= 0 && (draw as u64) < cardinality as u64 {
            let index: usize = draw as usize;
            let weight: usize = weights[index];
            weights.set(index, weight + 1);
        }
        i += 1;
    }
    proof {
        assert(draws@.take(i as int) =~= draws@);
        lemma_histogram_total(draws@, cardinality as nat);
    }
    weights
}

/// The index that the `ticket`-th sequential pick falls on.
pub open spec fn spec_sequential_index(ticket: nat, cardinality: nat) -> nat {
    ticket % cardinality
}

/// The index that the `ticket`-th sequential pick falls on.
pub fn sequential_index(ticket: usize, cardinality: usize) -> (index: usize)
    requires
        cardinality > 0,
    ensures
        index == spec_sequential_index(ticket as nat, cardinality as nat),
        index < cardinality,
{
    ticket % cardinality
}

/// Sequential picks advance by one index, and wrap to the first index after
/// the last.
pub proof fn lemma_sequential_successor(ticket: nat, cardinality: nat)
    requires
        cardinality > 0,
    ensures
        spec_sequential_index(ticket + 1, cardinality) == if spec_sequential_index(
            ticket,
            cardinality,
        ) + 1 == cardinality {
            0
        } else {
            spec_sequential_index(ticket, cardinality) + 1
        },
{
    let t = ticket as int;
    let c = cardinality as int;
    assert((t + 1) % c == if t % c + 1 == c {
        0
    } else {
        t % c + 1
    }) by (nonlinear_arith)
        requires
            t >= 0,
            c > 0,
    ;
}

/// Sequential picks that are less than one round apart fall on different
/// indices: no index comes twice before the picks wrap.
pub proof fn lemma_sequential_no_repeat(first: nat, second: nat, cardinality: nat)
    requires
        cardinality > 0,
        first < second < first + cardinality,
    ensures
        spec_sequential_index(first, cardinality) != spec_sequential_index(second, cardinality),
{
    let a = first as int;
    let b = second as int;
    let c = cardinality as int;
    assert(a % c != b % c) by (nonlinear_arith)
        requires
            0 <= a < b < a + c,
            c > 0,
    ;
}

/// Any round of `cardinality` successive sequential picks falls on every
/// index: no index is left out.
pub proof fn lemma_sequential_covers(start: nat, cardinality: nat, index: nat) -> (ticket: nat)
    requires
        index < cardinality,
    ensures
        start <= ticket < start + cardinality,
        spec_sequential_index(ticket, cardinality) == index,
{
    let s = start as int;
    let c = cardinality as int;
    let i = index as int;
    let offset = (i - s) % c;
    let rounds = (i - s) / c;
    lemma_mod_bound(i - s, c);
    lemma_fundamental_div_mod(i - s, c);
    assert(s + offset == c * (-rounds) + i) by (nonlinear_arith)
        requires
            i - s == c * rounds + offset,
    ;
    lemma_mod_multiples_vanish(-rounds, i, c);
    lemma_small_mod(index, cardinality);
    (s + offset) as nat
}

/// A sequential pick falls as many indices after another as it comes after
/// it, counted round the keys; a whole round later it falls on the same
/// index again.
pub proof fn lemma_sequential_round(start: nat, steps: nat, cardinality: nat)
    requires
        cardinality > 0,
    ensures
        spec_sequential_index(start + steps, cardinality) == (spec_sequential_index(
            start,
            cardinality,
        ) + steps) % cardinality,
        spec_sequential_index(start + cardinality, cardinality) == spec_sequential_index(
            start,
            cardinality,
        ),
{
    lemma_add_mod_noop(start as int, steps as int, cardinality as int);
    lemma_mod_bound(start as int, cardinality as int);
    lemma_add_mod_noop(
        spec_sequential_index(start, cardinality) as int,
        steps as int,
        cardinality as int,
    );
    lemma_small_mod(spec_sequential_index(start, cardinality), cardinality);
    lemma_mod_add_multiples_vanish(start as int, cardinality as int);
}

/// Why a sampler could not be made.
#[derive(Clone, Copy, Debug, PartialEq, Eq, Structural)]
pub enum SamplerError {
    /// There is no key to pick.
    EmptyKeySet,
    /// A weighted kind needs as many draws as there are keys.
    DrawCountMismatch,
    /// No draw fell on the index of a key, so that no key has any weight.
    NoDrawInRange,
}

/// The reason, if there is one, for which no sampler of `kind` can be made
/// over `cardinality` keys from `draws`.
pub open spec fn construction_error(
    kind: DistributionKind,
    cardinality: nat,
    draws: Seq<i64>,
) -> Option<SamplerError> {
    if cardinality == 0 {
        Some(SamplerError::EmptyKeySet)
    } else if !kind.is_weighted() {
        None
    } else if draws.len() != cardinality {
        Some(SamplerError::DrawCountMismatch)
    } else if draws_in_range(draws, cardinality) == 0 {
        Some(SamplerError::NoDrawInRange)
    } else {
        None
    }
}

/// Generates `cardinality` random keys, each an identifier of version four.
pub fn generate_keys(cardinality: usize) -> (keys: Vec<u128>)
    ensures
        keys@.len() == cardinality,
        forall|i: int| 0 <= i < keys@.len() ==> is_random_key(#[trigger] keys@[i]),
{
    let mut keys: Vec<u128> = Vec::new();
    let mut i: usize = 0;
    while i < cardinality
        invariant
            i <= cardinality,
            keys@.len() == i,
            forall|k: int| 0 <= k < keys@.len() ==> is_random_key(#[trigger] keys@[k]),
        decreases cardinality - i,
    {
        keys.push(random_key());
        i += 1;
    }
    keys
}

/// Hands out the number of the next sequential pick.
fn take_ticket(counter: &AtomicUsize) -> usize {
    counter.fetch_add(1, Ordering::SeqCst)
}

/// Picks keys out of a fixed, ordered set of candidates.
pub struct Sampler {
    kind: DistributionKind,
    keys: Vec<u128>,
    table: Option<WeightedTable>,
    next_ticket: AtomicUsize,
}

impl Sampler {
    #[verifier::type_invariant]
    spec fn well_formed(&self) -> bool {
        &&& self.keys@.len() > 0
        &&& self.kind.is_weighted() ==> self.table.is_some() && table_weights(
            self.table.unwrap(),
        ).len() == self.keys@.len()
    }

    /// The shape of the distribution.
    pub closed spec fn kind(&self) -> DistributionKind {
        self.kind
    }

    /// The candidate keys, in their order.
    pub closed spec fn keys(&self) -> Seq<u128> {
        self.keys@
    }

    /// The weight of each candidate's index, for the weighted kinds.
    pub closed spec fn weights(&self) -> Seq<usize> {
        table_weights(self.table.unwrap())
    }

    /// Whether a pick can fall on `index`: it is the index of a key, and
    /// under a weighted kind it has weight.
    pub open spec fn may_pick_index(&self, index: int) -> bool {
        &&& 0 <= index < self.keys().len()
        &&& self.kind().is_weighted() ==> self.weights().len() == self.keys().len()
            && self.weights()[index] > 0
    }

    /// Whether a pick can give `key`: it is the key at an index that a pick
    /// can fall on.
    pub open spec fn may_pick(&self, key: u128) -> bool {
        exists|index: int| #[trigger] self.may_pick_index(index) && self.keys()[index] == key
    }

    /// Makes a sampler of `kind` over `keys`. A weighted kind takes its
    /// weights from the histogram of `draws`, of which there must be one per
    /// key; the other kinds do not look at `draws`.
    pub fn new(kind: DistributionKind, keys: Vec<u128>, draws: &Vec<i64>) -> (made: Result<
        Sampler,
        SamplerError,
    >)
        ensures
            made is Ok <==> construction_error(kind, keys@.len(), draws@) is None,
            made matches Err(error) ==> construction_error(kind, keys@.len(), draws@) == Some(
                error,
            ),
            made matches Ok(sampler) ==> {
                &&& sampler.kind() == kind
                &&& sampler.keys() == keys@
                &&& kind.is_weighted() ==> sampler.weights() == histogram(draws@, keys@.len())
            },
    {
        if keys.len() == 0 {
            return Err(SamplerError::EmptyKeySet);
        }
        if !kind.weighted() {
            return Ok(Sampler { kind, keys, table: None, next_ticket: AtomicUsize::new(0) });
        }
        if draws.len() != keys.len() {
            return Err(SamplerError::DrawCountMismatch);
        }
        let weights: Vec<usize> = build_histogram(draws, keys.len());
        match weighted_table(&weights) {
            Some(table) => Ok(
                Sampler { kind, keys, table: Some(table), next_ticket: AtomicUsize::new(0) },
            ),
            None => Err(SamplerError::NoDrawInRange),
        }
    }

    /// Number of candidate keys.
    pub fn cardinality(&self) -> (cardinality: usize)
        ensures
            cardinality == self.keys().len(),
            cardinality > 0,
    {
        proof {
            use_type_invariant(self);
        }
        self.keys.len()
    }

    /// The shape of the distribution.
    pub fn distribution(&self) -> (kind: DistributionKind)
        ensures
            kind == self.kind(),
    {
        self.kind
    }

    /// The candidate key at `index`.
    pub fn key_at(&self, index: usize) -> (key: u128)
        requires
            index < self.keys().len(),
        ensures
            key == self.keys()[index as int],
    {
        self.keys[index]
    }

    /// The key that the `ticket`-th sequential pick gives: the keys are
    /// given in their order, round and round.
    pub fn sequential_key(&self, ticket: usize) -> (key: u128)
        ensures
            key == self.keys()[spec_sequential_index(ticket as nat, self.keys().len()) as int],
            self.keys().contains(key),
    {
        proof {
            use_type_invariant(self);
        }
        self.keys[sequential_index(ticket, self.keys.len())]
    }

    /// Picks the index of a key. A weighted kind never picks an index
    /// without weight.
    pub fn sample_index(&self) -> (index: usize)
        ensures
            index < self.keys().len(),
            self.may_pick_index(index as int),
    {
        proof {
            use_type_invariant(self);
        }
        match self.kind {
            DistributionKind::Sequential => sequential_index(
                take_ticket(&self.next_ticket),
                self.keys.len(),
            ),
            DistributionKind::Uniform => uniform_index(self.keys.len()),
            _ => match &self.table {
                Some(table) => weighted_pick(table),
                None => 0,
            },
        }
    }

    /// Picks a key: the key at an index that `sample_index` can pick, so
    /// that under a weighted kind it is never a key without weight.
    pub fn sample(&self) -> (key: u128)
        ensures
            self.may_pick(key),
            self.keys().contains(key),
    {
        let index: usize = self.sample_index();
        self.keys[index]
    }
}

} // verus!
