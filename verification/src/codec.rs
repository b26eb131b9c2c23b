//! Grammar codec: a grammar identifier packs one bit per binary syntactic
//! parameter, and a weighted sampler draws a fresh identifier from a vector
//! of per-parameter weights.

use vstd::prelude::*;

use crate::rng::random_below;
use crate::MAX_GRAMMAR;
use crate::NUM_PARAMS;
use crate::WEIGHT_SCALE;

verus! {

/// Bit of `grammar` that encodes parameter `i`. Parameters are indexed from
/// the most significant used bit, so parameter `i` lives at bit
/// `NUM_PARAMS - i - 1`.
pub open spec fn spec_get_param(grammar: u16, i: int) -> u16 {
    (grammar >> ((NUM_PARAMS - i - 1) as u16)) & 1
}

proof fn lemma_shifted_bit_is_boolean(g: u16, s: u16)
    by (bit_vector)
    ensures
        ((g >> s) & 1) == 0 || ((g >> s) & 1) == 1,
{
}

proof fn lemma_zero_grammar_bits(s: u16)
    by (bit_vector)
    ensures
        (0u16 >> s) & 1 == 0,
{
}

proof fn lemma_set_bit(g: u16, s: u16)
    by (bit_vector)
    requires
        s < 13,
        (g >> s) & 1 == 0,
    ensures
        g + (1u16 << s) == (g | (1u16 << s)),
        ((g | (1u16 << s)) >> s) & 1 == 1,
        g <= 0x1FFF ==> (g | (1u16 << s)) <= 0x1FFF,
{
}

proof fn lemma_set_bit_preserves_other(g: u16, s: u16, t: u16)
    by (bit_vector)
    requires
        s < 13,
        t < 13,
        t != s,
        (g >> s) & 1 == 0,
    ensures
        ((g | (1u16 << s)) >> t) & 1 == (g >> t) & 1,
{
}

proof fn lemma_all_bits_clear(g: u16)
    by (bit_vector)
    requires
        g <= 0x1FFF,
        (g >> 12) & 1 == 0,
        (g >> 11) & 1 == 0,
        (g >> 10) & 1 == 0,
        (g >> 9) & 1 == 0,
        (g >> 8) & 1 == 0,
        (g >> 7) & 1 == 0,
        (g >> 6) & 1 == 0,
        (g >> 5) & 1 == 0,
        (g >> 4) & 1 == 0,
        (g >> 3) & 1 == 0,
        (g >> 2) & 1 == 0,
        (g >> 1) & 1 == 0,
        (g >> 0) & 1 == 0,
    ensures
        g == 0,
{
}

proof fn lemma_all_bits_set(g: u16)
    by (bit_vector)
    requires
        g <= 0x1FFF,
        (g >> 12) & 1 == 1,
        (g >> 11) & 1 == 1,
        (g >> 10) & 1 == 1,
        (g >> 9) & 1 == 1,
        (g >> 8) & 1 == 1,
        (g >> 7) & 1 == 1,
        (g >> 6) & 1 == 1,
        (g >> 5) & 1 == 1,
        (g >> 4) & 1 == 1,
        (g >> 3) & 1 == 1,
        (g >> 2) & 1 == 1,
        (g >> 1) & 1 == 1,
        (g >> 0) & 1 == 1,
    ensures
        g == 0x1FFF,
{
}

/// Law: a grammar identifier with only the low `NUM_PARAMS` bits available
/// and every parameter reading 0 is the zero identifier.
pub proof fn lemma_no_params_on_is_zero(g: u16)
    requires
        g <= MAX_GRAMMAR,
        forall|i: int| 0 <= i < NUM_PARAMS ==> #[trigger] spec_get_param(g, i) == 0,
    ensures
        g == 0,
{
    assert(spec_get_param(g, 0) == 0 && spec_get_param(g, 1) == 0 && spec_get_param(g, 2) == 0
        && spec_get_param(g, 3) == 0 && spec_get_param(g, 4) == 0 && spec_get_param(g, 5) == 0
        && spec_get_param(g, 6) == 0 && spec_get_param(g, 7) == 0 && spec_get_param(g, 8) == 0
        && spec_get_param(g, 9) == 0 && spec_get_param(g, 10) == 0 && spec_get_param(g, 11) == 0
        && spec_get_param(g, 12) == 0);
    lemma_all_bits_clear(g);
}

/// Law: a grammar identifier with only the low `NUM_PARAMS` bits available
/// and every parameter reading 1 is the identifier with every parameter bit
/// set.
pub proof fn lemma_all_params_on_is_full(g: u16)
    requires
        g <= MAX_GRAMMAR,
        forall|i: int| 0 <= i < NUM_PARAMS ==> #[trigger] spec_get_param(g, i) == 1,
    ensures
        g == MAX_GRAMMAR,
{
    assert(spec_get_param(g, 0) == 1 && spec_get_param(g, 1) == 1 && spec_get_param(g, 2) == 1
        && spec_get_param(g, 3) == 1 && spec_get_param(g, 4) == 1 && spec_get_param(g, 5) == 1
        && spec_get_param(g, 6) == 1 && spec_get_param(g, 7) == 1 && spec_get_param(g, 8) == 1
        && spec_get_param(g, 9) == 1 && spec_get_param(g, 10) == 1 && spec_get_param(g, 11) == 1
        && spec_get_param(g, 12) == 1);
    lemma_all_bits_set(g);
}

/// Returns parameter `param_num` of `grammar`, as 0 or 1.
pub fn get_param(grammar: &u16, param_num: usize) -> (r: u16)
    requires
        param_num < NUM_PARAMS,
    ensures
        r == spec_get_param(*grammar, param_num as int),
        r == 0 || r == 1,
{
    let shift: u16 = (NUM_PARAMS - param_num - 1) as u16;
    proof {
        lemma_shifted_bit_is_boolean(*grammar, shift);
    }
    (*grammar >> shift) & 1
}

/// Returns `grammar` with parameter `param_num` turned on. Implemented as an
/// addition of the bit value, so the bit must currently be 0: a grammar
/// identifier is built up from zero, one fresh parameter at a time.
pub fn set_param(grammar: u16, param_num: usize) -> (r: u16)
    requires
        param_num < NUM_PARAMS,
        spec_get_param(grammar, param_num as int) == 0,
    ensures
        r == grammar | (1u16 << ((NUM_PARAMS - param_num - 1) as u16)),
        spec_get_param(r, param_num as int) == 1,
        forall|j: int|
            0 <= j < NUM_PARAMS && j != param_num ==> spec_get_param(r, j) == spec_get_param(
                grammar,
                j,
            ),
        grammar <= MAX_GRAMMAR ==> r <= MAX_GRAMMAR,
{
    let shift: u16 = (NUM_PARAMS - param_num - 1) as u16;
    proof {
        lemma_set_bit(grammar, shift);
        assert forall|j: int|
            0 <= j < NUM_PARAMS && j != param_num implies #[trigger] spec_get_param(
            (grammar | (1u16 << shift)),
            j,
        ) == spec_get_param(grammar, j) by {
            lemma_set_bit_preserves_other(grammar, shift, (NUM_PARAMS - j - 1) as u16);
        }
    }
    grammar + (1u16 << shift)
}

/// Draws a grammar identifier by flipping, for each parameter independently,
/// a coin biased by that parameter's weight, and turning the parameter on
/// when the coin comes up heads.
pub fn random_weighted_grammar(weights: &Vec<u64>) -> (g: u16)
    requires
        weights@.len() == NUM_PARAMS,
        forall|i: int| 0 <= i < NUM_PARAMS ==> weights@[i] <= WEIGHT_SCALE,
    ensures
        g <= MAX_GRAMMAR,
        forall|i: int| 0 <= i < NUM_PARAMS && weights@[i] == 0 ==> spec_get_param(g, i) == 0,
        forall|i: int|
            0 <= i < NUM_PARAMS && weights@[i] == WEIGHT_SCALE ==> spec_get_param(g, i) == 1,
        (forall|i: int| 0 <= i < NUM_PARAMS ==> weights@[i] == 0) ==> g == 0,
        (forall|i: int| 0 <= i < NUM_PARAMS ==> weights@[i] == WEIGHT_SCALE) ==> g == MAX_GRAMMAR,
{
    let mut grammar: u16 = 0;
    proof {
        assert forall|j: int| 0 <= j < NUM_PARAMS implies spec_get_param(0u16, j) == 0 by {
            lemma_zero_grammar_bits((NUM_PARAMS - j - 1) as u16);
        }
    }
    let mut param: usize = 0;
    while param < NUM_PARAMS
        invariant
            param <= NUM_PARAMS,
            weights@.len() == NUM_PARAMS,
            forall|i: int| 0 <= i < NUM_PARAMS ==> weights@[i] <= WEIGHT_SCALE,
            grammar <= MAX_GRAMMAR,
            forall|j: int| param <= j < NUM_PARAMS ==> spec_get_param(grammar, j) == 0,
            forall|j: int| 0 <= j < param && weights@[j] == 0 ==> spec_get_param(grammar, j) == 0,
            forall|j: int|
                0 <= j < param && weights@[j] == WEIGHT_SCALE ==> spec_get_param(grammar, j) == 1,
        decreases NUM_PARAMS - param,
    {
        if weighted_coin_flip(weights[param]) {
            grammar = set_param(grammar, param);
        }
        param = param + 1;
    }
    proof {
        if forall|i: int| 0 <= i < NUM_PARAMS ==> weights@[i] == 0 {
            assert forall|i: int| 0 <= i < NUM_PARAMS implies #[trigger] spec_get_param(
                grammar,
                i,
            ) == 0 by {
                assert(weights@[i] == 0);
            }
            lemma_no_params_on_is_zero(grammar);
        }
        if forall|i: int| 0 <= i < NUM_PARAMS ==> weights@[i] == WEIGHT_SCALE {
            assert forall|i: int| 0 <= i < NUM_PARAMS implies #[trigger] spec_get_param(
                grammar,
                i,
            ) == 1 by {
                assert(weights@[i] == WEIGHT_SCALE);
            }
            lemma_all_params_on_is_full(grammar);
        }
    }
    grammar
}

/// Returns true with probability `weight / WEIGHT_SCALE`: draws a value
/// uniformly below the scale and compares it against the weight.
pub fn weighted_coin_flip(weight: u64) -> (r: bool)
    requires
        weight <= WEIGHT_SCALE,
    ensures
        weight == 0 ==> !r,
        weight == WEIGHT_SCALE ==> r,
{
    let sample = random_below(WEIGHT_SCALE);
    sample < weight
}

} // verus!
