use colag_learner::codec::get_param;
use colag_learner::codec::random_weighted_grammar;
use colag_learner::codec::set_param;
use colag_learner::learner::init_weights;
use colag_learner::learner::reward_relevant_weights;
use colag_learner::learner::reward_weights;
use colag_learner::learner::Hypothesis;
use colag_learner::INIT_WEIGHT;
use colag_learner::MAX_GRAMMAR;
use colag_learner::NUM_PARAMS;
use colag_learner::THRESHOLD;
use colag_learner::WEIGHT_SCALE;

#[test]
fn set_then_get_each_param() {
    for i in 0..NUM_PARAMS {
        let g: u16 = set_param(0, i);
        assert_eq!(get_param(&g, i), 1);
        for j in 0..NUM_PARAMS {
            if j != i {
                assert_eq!(get_param(&g, j), 0);
            }
        }
    }
}

#[test]
fn get_param_reads_from_most_significant_used_bit() {
    // parameter 0 lives at bit 12, parameter 12 at bit 0
    let g: u16 = 0b1010000000000;
    assert_eq!(get_param(&g, 0), 1);
    assert_eq!(get_param(&g, 1), 0);
    assert_eq!(get_param(&g, 2), 1);
    assert_eq!(get_param(&g, 12), 0);
    let one: u16 = 0b0000000000001;
    assert_eq!(get_param(&one, 12), 1);
    assert_eq!(get_param(&one, 0), 0);
}

#[test]
fn set_param_accumulates_bits() {
    let mut g: u16 = 0;
    for i in 0..NUM_PARAMS {
        g = set_param(g, i);
    }
    assert_eq!(g, MAX_GRAMMAR);
    assert_eq!(set_param(0b1010000000000, 1), 0b1110000000000);
}

#[test]
fn random_weighted_grammar_all_zero_weights_is_zero_grammar() {
    let weights: Vec<u64> = vec![0; NUM_PARAMS];
    for _ in 0..20 {
        assert_eq!(random_weighted_grammar(&weights), 0);
    }
}

#[test]
fn random_weighted_grammar_all_full_weights_is_full_grammar() {
    let weights: Vec<u64> = vec![WEIGHT_SCALE; NUM_PARAMS];
    for _ in 0..20 {
        assert_eq!(random_weighted_grammar(&weights), MAX_GRAMMAR);
    }
}

#[test]
fn random_weighted_grammar_pins_certain_parameters() {
    // parameters with weight 0 stay off, weight-1 parameters come on,
    // whatever the coin does for the uncertain one
    let mut weights: Vec<u64> = vec![0; NUM_PARAMS];
    weights[0] = WEIGHT_SCALE;
    weights[6] = INIT_WEIGHT;
    for _ in 0..20 {
        let g: u16 = random_weighted_grammar(&weights);
        assert_eq!(get_param(&g, 0), 1);
        for j in 1..NUM_PARAMS {
            if j != 6 {
                assert_eq!(get_param(&g, j), 0);
            }
        }
    }
}

#[test]
fn reward_moves_every_weight_toward_candidate_bits() {
    let weights: Vec<u64> = init_weights();
    // candidate 0b0000000000001: parameter 12 on, the rest off
    let updated: Vec<u64> = reward_weights(weights, &1, &7);
    assert_eq!(updated.len(), NUM_PARAMS);
    for i in 0..NUM_PARAMS - 1 {
        assert_eq!(updated[i], 499_500); // 500000 - 500000/1000
    }
    assert_eq!(updated[NUM_PARAMS - 1], 500_500); // 500000 + (1000000-500000)/1000
}

#[test]
fn reward_quantum_rounds_down_near_the_edges() {
    let weights: Vec<u64> = vec![999; NUM_PARAMS];
    let updated: Vec<u64> = reward_weights(weights, &0, &7);
    // 999 / 1000 rounds down to 0: the weight no longer moves
    assert_eq!(updated[0], 999);
    let weights_high: Vec<u64> = vec![WEIGHT_SCALE - 999; NUM_PARAMS];
    let updated_high: Vec<u64> = reward_weights(weights_high, &MAX_GRAMMAR, &7);
    assert_eq!(updated_high[0], WEIGHT_SCALE - 999);
}

#[test]
fn reward_relevant_performs_the_identical_update() {
    let a: Vec<u64> = reward_weights(init_weights(), &0b1010000000000, &7);
    let b: Vec<u64> = reward_relevant_weights(init_weights(), &0b1010000000000, &7, ());
    assert_eq!(a, b);
}

#[test]
fn initial_weights_are_half_scale() {
    let w: Vec<u64> = init_weights();
    assert_eq!(w.len(), NUM_PARAMS);
    for i in 0..NUM_PARAMS {
        assert_eq!(w[i], INIT_WEIGHT);
    }
    match Hypothesis::new_reward_only() {
        Hypothesis::RewardOnlyVL(ws) => assert_eq!(ws, w),
        _ => panic!("expected a reward-only hypothesis"),
    }
}

#[test]
fn half_scale_weights_are_never_converged() {
    let h = Hypothesis::RewardOnlyVL(init_weights());
    assert!(!h.converged());
}

#[test]
fn extreme_weights_are_always_converged() {
    assert!(Hypothesis::RewardOnlyVL(vec![0; NUM_PARAMS]).converged());
    assert!(Hypothesis::RewardOnlyVL(vec![WEIGHT_SCALE; NUM_PARAMS]).converged());
    let mut mixed: Vec<u64> = vec![0; NUM_PARAMS];
    mixed[3] = WEIGHT_SCALE;
    mixed[9] = WEIGHT_SCALE;
    assert!(Hypothesis::RewardOnlyVL(mixed).converged());
}

#[test]
fn one_uncertain_weight_blocks_convergence() {
    let mut weights: Vec<u64> = vec![0; NUM_PARAMS];
    for i in 0..NUM_PARAMS {
        if i % 2 == 0 {
            weights[i] = WEIGHT_SCALE;
        }
    }
    weights[5] = INIT_WEIGHT;
    assert!(!Hypothesis::RewardOnlyVL(weights).converged());
}

#[test]
fn convergence_band_is_closed_at_the_threshold() {
    assert!(Hypothesis::RewardOnlyVL(vec![THRESHOLD; NUM_PARAMS]).converged());
    assert!(Hypothesis::RewardOnlyVL(vec![WEIGHT_SCALE - THRESHOLD; NUM_PARAMS]).converged());
    assert!(!Hypothesis::RewardOnlyVL(vec![THRESHOLD + 1; NUM_PARAMS]).converged());
    assert!(!Hypothesis::RewardOnlyVL(vec![WEIGHT_SCALE - THRESHOLD - 1; NUM_PARAMS]).converged());
}

#[test]
fn non_variational_variants_never_converge() {
    assert!(!Hypothesis::new_trigger().converged());
    assert!(!Hypothesis::new_genetic().converged());
}
