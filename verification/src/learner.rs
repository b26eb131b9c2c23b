//! The learner's hypothesis state and its update rules: a tagged variant
//! set over learning strategies, of which the two variational-learner
//! variants carry a working linear-reward update.

use std::collections::HashSet;
use vstd::arithmetic::div_mod::lemma_fundamental_div_mod;
use vstd::arithmetic::div_mod::lemma_mod_bound;
use vstd::prelude::*;

use crate::codec::random_weighted_grammar;
use crate::codec::spec_get_param;
use crate::colag::Domain;
use crate::colag::sentence_parses;
use crate::INIT_WEIGHT;
use crate::NUM_PARAMS;
use crate::RATE_DIVISOR;
use crate::THRESHOLD;
use crate::WEIGHT_SCALE;

verus! {

/// A parameter weight vector: one fixed-point weight per parameter, each at
/// most the scale (the value standing for 1.0).
pub open spec fn weights_wf(w: Seq<u64>) -> bool {
    &&& w.len() == NUM_PARAMS
    &&& forall|i: int| 0 <= i < w.len() ==> #[trigger] w[i] <= WEIGHT_SCALE
}

/// Every weight sits at one half of the scale: maximal uncertainty.
pub open spec fn all_initial(w: Seq<u64>) -> bool {
    &&& w.len() == NUM_PARAMS
    &&& forall|i: int| 0 <= i < w.len() ==> #[trigger] w[i] == INIT_WEIGHT
}

/// One linear-reward step of a single weight, toward the candidate's bit:
/// toward 0 the weight loses a thousandth of itself, toward 1 it gains a
/// thousandth of its distance to the scale.
pub open spec fn spec_reward(w: u64, bit: u16) -> u64 {
    if bit == 0 {
        (w - w / RATE_DIVISOR) as u64
    } else {
        (w + (WEIGHT_SCALE - w) / (RATE_DIVISOR as int)) as u64
    }
}

/// The whole weight vector after rewarding toward candidate `grammar`.
pub open spec fn spec_reward_all(w: Seq<u64>, grammar: u16) -> Seq<u64> {
    Seq::new(w.len(), |i: int| spec_reward(w[i], spec_get_param(grammar, i)))
}

/// A weight is settled when it lies outside the open uncertainty band:
/// at most the threshold away from 0 or from the scale.
pub open spec fn weight_settled(w: u64) -> bool {
    w <= THRESHOLD || w >= WEIGHT_SCALE - THRESHOLD
}

/// The learner's internal state, one variant per strategy. Only the two
/// variational-learner variants carry a working update rule; a learning
/// step statically excludes the others (see [`Hypothesis::updatable`]).
pub enum Hypothesis {
    Trigger(u16),
    Genetic(HashSet<u16>),
    RewardOnlyVL(Vec<u64>),
    RewardOnlyRelevantVL(Vec<u64>),
}

impl Hypothesis {
    /// The weight vector, where one exists, is well formed.
    pub open spec fn wf(self) -> bool {
        match self {
            Hypothesis::RewardOnlyVL(w) => weights_wf(w@),
            Hypothesis::RewardOnlyRelevantVL(w) => weights_wf(w@),
            _ => true,
        }
    }

    /// The variants that carry an update rule.
    pub open spec fn updatable(self) -> bool {
        self is RewardOnlyVL || self is RewardOnlyRelevantVL
    }

    /// Converged means every weight is settled; variants without a weight
    /// vector are never converged.
    pub open spec fn spec_converged(self) -> bool {
        match self {
            Hypothesis::RewardOnlyVL(w) => forall|i: int|
                0 <= i < w@.len() ==> weight_settled(#[trigger] w@[i]),
            Hypothesis::RewardOnlyRelevantVL(w) => forall|i: int|
                0 <= i < w@.len() ==> weight_settled(#[trigger] w@[i]),
            _ => false,
        }
    }

    pub fn new_trigger() -> (h: Hypothesis)
        ensures
            h == Hypothesis::Trigger(0u16),
    {
        Hypothesis::Trigger(0)
    }

    pub fn new_reward_only() -> (h: Hypothesis)
        ensures
            h.wf(),
            match h {
                Hypothesis::RewardOnlyVL(w) => all_initial(w@),
                _ => false,
            },
    {
        Hypothesis::RewardOnlyVL(init_weights())
    }

    pub fn new_reward_only_relevant() -> (h: Hypothesis)
        ensures
            h.wf(),
            match h {
                Hypothesis::RewardOnlyRelevantVL(w) => all_initial(w@),
                _ => false,
            },
    {
        Hypothesis::RewardOnlyRelevantVL(init_weights())
    }

    pub fn new_genetic() -> (h: Hypothesis)
        ensures
            h.wf(),
            match h {
                Hypothesis::Genetic(s) => s@ == Set::<u16>::empty(),
                _ => false,
            },
    {
        Hypothesis::Genetic(HashSet::new())
    }

    /// Decides whether learning has stabilized.
    pub fn converged(&self) -> (r: bool)
        ensures
            r == self.spec_converged(),
    {
        match self {
            Hypothesis::RewardOnlyVL(weights) => weights_converged(weights),
            Hypothesis::RewardOnlyRelevantVL(weights) => weights_converged(weights),
            _ => false,
        }
    }
}

/// A fresh weight vector, every parameter at maximal uncertainty.
pub fn init_weights() -> (w: Vec<u64>)
    ensures
        weights_wf(w@),
        all_initial(w@),
{
    let mut w: Vec<u64> = Vec::new();
    let mut param: usize = 0;
    while param < NUM_PARAMS
        invariant
            param <= NUM_PARAMS,
            w@.len() == param,
            forall|i: int| 0 <= i < param ==> #[trigger] w@[i] == INIT_WEIGHT,
        decreases NUM_PARAMS - param,
    {
        w.push(INIT_WEIGHT);
        param = param + 1;
    }
    w
}

fn weights_converged(weights: &Vec<u64>) -> (r: bool)
    ensures
        r == (forall|i: int| 0 <= i < weights@.len() ==> weight_settled(#[trigger] weights@[i])),
{
    let mut i: usize = 0;
    while i < weights.len()
        invariant
            i <= weights@.len(),
            forall|k: int| 0 <= k < i ==> weight_settled(#[trigger] weights@[k]),
        decreases weights@.len() - i,
    {
        let w = weights[i];
        if w > THRESHOLD && w < WEIGHT_SCALE - THRESHOLD {
            assert(!weight_settled(weights@[i as int]));
            return false;
        }
        i = i + 1;
    }
    true
}

/// Division facts for the reward arithmetic: one thousandth of a value is
/// never larger than it, is strictly smaller once the value is positive,
/// and is at least one once the value reaches the divisor.
proof fn lemma_rate_div(x: u64)
    ensures
        x / RATE_DIVISOR <= x,
        x >= 1 ==> x / RATE_DIVISOR < x,
        x >= RATE_DIVISOR ==> x / RATE_DIVISOR >= 1,
{
    lemma_fundamental_div_mod(x as int, RATE_DIVISOR as int);
    lemma_mod_bound(x as int, RATE_DIVISOR as int);
}

/// Law: rewarding toward bit value 1 strictly increases the weight, as long
/// as the weight is at least one whole reward quantum below the scale (for
/// a weight closer to the scale than the rate divisor, the integer quantum
/// rounds down to nothing).
pub proof fn lemma_reward_monotone_up(w: u64)
    requires
        w + RATE_DIVISOR <= WEIGHT_SCALE,
    ensures
        spec_reward(w, 1) > w,
        spec_reward(w, 1) <= WEIGHT_SCALE,
{
    lemma_rate_div((WEIGHT_SCALE - w) as u64);
}

/// Law: rewarding toward bit value 0 strictly decreases the weight, as long
/// as the weight holds at least one whole reward quantum.
pub proof fn lemma_reward_monotone_down(w: u64)
    requires
        RATE_DIVISOR <= w,
    ensures
        spec_reward(w, 0) < w,
{
    lemma_rate_div(w);
}

/// Law: a weight strictly inside (0, scale) stays strictly inside after any
/// reward step, so weights starting from one half never cross outside the
/// open unit interval under finitely many updates.
pub proof fn lemma_reward_stays_interior(w: u64, bit: u16)
    requires
        0 < w < WEIGHT_SCALE,
    ensures
        0 < spec_reward(w, bit) < WEIGHT_SCALE,
{
    lemma_rate_div(w);
    lemma_rate_div((WEIGHT_SCALE - w) as u64);
}

/// Law: a weight vector strictly inside the open unit interval stays
/// strictly inside it under one reward step toward any candidate grammar,
/// so a learner started at one half never drives a weight to 0 or to the
/// scale, however many sentences it consumes.
pub proof fn lemma_reward_all_stays_interior(w: Seq<u64>, grammar: u16)
    requires
        weights_wf(w),
        forall|i: int| 0 <= i < w.len() ==> 0 < #[trigger] w[i] < WEIGHT_SCALE,
    ensures
        weights_wf(spec_reward_all(w, grammar)),
        forall|i: int|
            0 <= i < spec_reward_all(w, grammar).len() ==> 0 < #[trigger] spec_reward_all(
                w,
                grammar,
            )[i] < WEIGHT_SCALE,
{
    assert forall|i: int|
        0 <= i < spec_reward_all(w, grammar).len() implies 0 < #[trigger] spec_reward_all(
        w,
        grammar,
    )[i] < WEIGHT_SCALE by {
        lemma_reward_stays_interior(w[i], spec_get_param(grammar, i));
    }
}

/// The weight vector after rewarding toward each candidate of `grammars` in
/// turn.
pub open spec fn spec_reward_fold(w: Seq<u64>, grammars: Seq<u16>) -> Seq<u64>
    decreases grammars.len(),
{
    if grammars.len() == 0 {
        w
    } else {
        spec_reward_fold(spec_reward_all(w, grammars[0]), grammars.drop_first())
    }
}

/// Law: from weights strictly inside the open unit interval, no finite
/// sequence of reward updates drives any weight to 0 or to the scale.
pub proof fn lemma_reward_fold_stays_interior(w: Seq<u64>, grammars: Seq<u16>)
    requires
        weights_wf(w),
        forall|i: int| 0 <= i < w.len() ==> 0 < #[trigger] w[i] < WEIGHT_SCALE,
    ensures
        weights_wf(spec_reward_fold(w, grammars)),
        forall|i: int|
            0 <= i < spec_reward_fold(w, grammars).len() ==> 0 < #[trigger] spec_reward_fold(
                w,
                grammars,
            )[i] < WEIGHT_SCALE,
    decreases grammars.len(),
{
    if grammars.len() > 0 {
        lemma_reward_all_stays_interior(w, grammars[0]);
        lemma_reward_fold_stays_interior(spec_reward_all(w, grammars[0]), grammars.drop_first());
    }
}

/// Law: a learner started at the half-scale initial vector never sees a
/// weight cross outside the open unit interval, however many reward updates
/// it applies.
pub proof fn lemma_initial_weights_never_cross(w: Seq<u64>, grammars: Seq<u16>)
    requires
        all_initial(w),
    ensures
        forall|i: int|
            0 <= i < spec_reward_fold(w, grammars).len() ==> 0 < #[trigger] spec_reward_fold(
                w,
                grammars,
            )[i] < WEIGHT_SCALE,
{
    assert forall|i: int| 0 <= i < w.len() implies 0 < #[trigger] w[i] < WEIGHT_SCALE by {
        assert(w[i] == INIT_WEIGHT);
    }
    lemma_reward_fold_stays_interior(w, grammars);
}

/// Applies the linear-reward update to every parameter, toward the bits of
/// the candidate `grammar` that parsed the sentence.
pub fn reward_weights(weights: Vec<u64>, grammar: &u16, _sentence: &u32) -> (r: Vec<u64>)
    requires
        weights_wf(weights@),
    ensures
        weights_wf(r@),
        r@ == spec_reward_all(weights@, *grammar),
{
    let mut updated: Vec<u64> = Vec::new();
    let mut param: usize = 0;
    while param < NUM_PARAMS
        invariant
            weights_wf(weights@),
            param <= NUM_PARAMS,
            updated@.len() == param,
            forall|j: int|
                0 <= j < param ==> #[trigger] updated@[j] == spec_reward(
                    weights@[j],
                    spec_get_param(*grammar, j),
                ) && updated@[j] <= WEIGHT_SCALE,
        decreases NUM_PARAMS - param,
    {
        let w = weights[param];
        let bit = crate::codec::get_param(grammar, param);
        proof {
            lemma_rate_div(w);
            lemma_rate_div((WEIGHT_SCALE - w) as u64);
        }
        let nw: u64 = if bit == 0 {
            w - w / RATE_DIVISOR
        } else {
            w + (WEIGHT_SCALE - w) / RATE_DIVISOR
        };
        updated.push(nw);
        param = param + 1;
    }
    proof {
        assert(updated@ =~= spec_reward_all(weights@, *grammar));
    }
    updated
}

/// The "relevant" reward rule. It is meant to restrict rewarding to the
/// parameters causally relevant to parsing the sentence, but the shipped
/// rule applies the identical unconditional update to every parameter; that
/// observed behavior is preserved here, not corrected.
pub fn reward_relevant_weights(
    weights: Vec<u64>,
    grammar: &u16,
    sentence: &u32,
    _triggers: (),
) -> (r: Vec<u64>)
    requires
        weights_wf(weights@),
    ensures
        weights_wf(r@),
        r@ == spec_reward_all(weights@, *grammar),
{
    reward_weights(weights, grammar, sentence)
}

/// How one learning step may change a weight vector: either some candidate
/// grammar of the Domain parsed the sentence and every weight moved toward
/// that candidate's bits, or the vector is unchanged.
pub open spec fn consume_relation(w0: Seq<u64>, w1: Seq<u64>, domain: Domain, sentence: u32) -> bool {
    w1 == w0 || exists|g: u16|
        #[trigger] domain.language@.contains_key(g) && domain.language@[g]@.contains(sentence)
            && w1 == spec_reward_all(w0, g)
}

/// One learning event for a variational learner: sample candidate grammars
/// until one is a key of the Domain (the attempt counter bounds the resample
/// loop, which in practice succeeds within a few draws), then reward the
/// weights if that single candidate parses the sentence, else leave them
/// unchanged.
fn vl_step(weights: Vec<u64>, domain: &Domain, sentence: &u32, relevant: bool) -> (r: Vec<u64>)
    requires
        weights_wf(weights@),
    ensures
        weights_wf(r@),
        consume_relation(weights@, r@, *domain, *sentence),
{
    let ghost w0 = weights@;
    let mut w = weights;
    let mut attempts: u64 = 0;
    let mut done = false;
    while !done && attempts < u64::MAX
        invariant
            weights_wf(w@),
            !done ==> w@ == w0,
            done ==> consume_relation(w0, w@, *domain, *sentence),
        decreases u64::MAX - attempts,
    {
        attempts = attempts + 1;
        let candidate = random_weighted_grammar(&w);
        match sentence_parses(domain, &candidate, sentence) {
            Ok(parses) => {
                if parses {
                    if relevant {
                        w = reward_relevant_weights(w, &candidate, sentence, ());
                    } else {
                        w = reward_weights(w, &candidate, sentence);
                    }
                    proof {
                        assert(domain.language@.contains_key(candidate));
                        assert(w@ == spec_reward_all(w0, candidate));
                    }
                }
                done = true;
            },
            Err(_) => {},
        }
    }
    w
}

/// One Monte Carlo learning event: feeds one observed sentence to the
/// hypothesis and returns the updated hypothesis. Only the variational
/// variants can take a step; the trigger and genetic variants have no
/// update rule, and a step on them is excluded by precondition.
pub fn consume_sentence(hypothesis: Hypothesis, domain: &Domain, sentence: &u32) -> (r: Hypothesis)
    requires
        hypothesis.wf(),
        hypothesis.updatable(),
    ensures
        r.wf(),
        r.updatable(),
        match (hypothesis, r) {
            (Hypothesis::RewardOnlyVL(w0), Hypothesis::RewardOnlyVL(w1)) => consume_relation(
                w0@,
                w1@,
                *domain,
                *sentence,
            ),
            (
                Hypothesis::RewardOnlyRelevantVL(w0),
                Hypothesis::RewardOnlyRelevantVL(w1),
            ) => consume_relation(w0@, w1@, *domain, *sentence),
            _ => false,
        },
{
    match hypothesis {
        Hypothesis::RewardOnlyVL(weights) => Hypothesis::RewardOnlyVL(
            vl_step(weights, domain, sentence, false),
        ),
        Hypothesis::RewardOnlyRelevantVL(weights) => Hypothesis::RewardOnlyRelevantVL(
            vl_step(weights, domain, sentence, true),
        ),
        _ => unreached(),
    }
}

} // verus!
