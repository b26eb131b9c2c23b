use colag_learner::colag::sentence_parses;
use colag_learner::colag::Domain;
use colag_learner::learner::consume_sentence;
use colag_learner::learner::reward_weights;
use colag_learner::learner::Hypothesis;
use colag_learner::sim::learn_language;
use colag_learner::sim::run_scheduler;
use colag_learner::sim::run_target;
use colag_learner::sim::Report;
use colag_learner::MAX_GRAMMAR;
use colag_learner::NUM_PARAMS;
use colag_learner::THRESHOLD;
use colag_learner::WEIGHT_SCALE;

fn tiny_domain() -> Domain {
    // grammar 0b0000000000001 generates sentence 7,
    // grammar 0b1111111111111 generates sentence 9
    let mut d = Domain::new();
    d.add_sentence(1, 7);
    d.add_sentence(MAX_GRAMMAR, 9);
    d
}

#[test]
fn parses_is_membership_in_the_grammar_sentence_set() {
    let d = tiny_domain();
    assert_eq!(sentence_parses(&d, &1, &7).ok(), Some(true));
    assert_eq!(sentence_parses(&d, &1, &9).ok(), Some(false));
    assert_eq!(sentence_parses(&d, &MAX_GRAMMAR, &9).ok(), Some(true));
}

#[test]
fn absent_grammar_is_the_illegal_grammar_condition() {
    let d = tiny_domain();
    for g in [0u16, 5, 611, 8190] {
        match sentence_parses(&d, &g, &7) {
            Err(e) => assert_eq!(e.0, g),
            Ok(_) => panic!("grammar {} should not be a key of the domain", g),
        }
    }
}

#[test]
fn add_sentence_keeps_sentences_unique() {
    let mut d = Domain::new();
    d.add_sentence(1, 7);
    d.add_sentence(1, 7);
    d.add_sentence(1, 8);
    assert_eq!(d.language.len(), 1);
    assert_eq!(d.language.get(&1).unwrap().len(), 2);
}

fn synthetic_corpus() -> Domain {
    let mut d = Domain::new();
    for g in 0..3072u16 {
        if g == 611 {
            for s in [3138u32, 1970, 5871, 6923, 1969] {
                d.add_sentence(g, s);
            }
            for s in 0..355u32 {
                d.add_sentence(g, s);
            }
        } else {
            d.add_sentence(g, 1);
        }
    }
    d
}

#[test]
fn corpus_shape_check_accepts_the_expected_shape() {
    let d = synthetic_corpus();
    assert!(d.corpus_shape_ok());
}

#[test]
fn corpus_shape_check_rejects_wrong_shapes() {
    assert!(!tiny_domain().corpus_shape_ok());

    // right language count, wrong English sentence count
    let mut d = Domain::new();
    for g in 0..3072u16 {
        d.add_sentence(g, 1);
    }
    assert!(!d.corpus_shape_ok());

    // a missing expected sentence
    let mut d2 = Domain::new();
    for g in 0..3072u16 {
        if g == 611 {
            for s in 0..360u32 {
                d2.add_sentence(g, s);
            }
        } else {
            d2.add_sentence(g, 1);
        }
    }
    assert!(!d2.corpus_shape_ok());
}

/// Weights that deterministically sample grammar 0b0000000000001: every
/// parameter certain-off except the last, certain-on.
fn weights_for_grammar_one() -> Vec<u64> {
    let mut w: Vec<u64> = vec![0; NUM_PARAMS];
    w[NUM_PARAMS - 1] = WEIGHT_SCALE;
    w
}

#[test]
fn consume_sentence_rewards_a_parsing_candidate() {
    let d = tiny_domain();
    // sampling is deterministic here, so the single candidate is grammar 1,
    // which parses sentence 7: the settled weights stay settled
    let h = Hypothesis::RewardOnlyVL(weights_for_grammar_one());
    match consume_sentence(h, &d, &7) {
        Hypothesis::RewardOnlyVL(w) => assert_eq!(w, weights_for_grammar_one()),
        _ => panic!("the variant must be preserved"),
    }
}

#[test]
fn consume_sentence_leaves_weights_alone_when_the_candidate_fails_to_parse() {
    let d = tiny_domain();
    // the single candidate is grammar 1, which does not generate sentence 9
    let h = Hypothesis::RewardOnlyRelevantVL(weights_for_grammar_one());
    match consume_sentence(h, &d, &9) {
        Hypothesis::RewardOnlyRelevantVL(w) => assert_eq!(w, weights_for_grammar_one()),
        _ => panic!("the variant must be preserved"),
    }
}

#[test]
fn learner_fed_a_parsing_candidate_converges_to_its_bits() {
    // a learner that keeps observing sentence 7 while its sampled candidate
    // 0b0000000000001 keeps parsing it must settle on that bit pattern
    let mut w: Vec<u64> = vec![500_000; NUM_PARAMS];
    let mut steps: u32 = 0;
    while !Hypothesis::RewardOnlyVL(w.clone()).converged() {
        w = reward_weights(w, &1, &7);
        steps += 1;
        assert!(steps < 10_000, "the reward update must converge");
    }
    for i in 0..NUM_PARAMS - 1 {
        assert!(w[i] <= THRESHOLD);
    }
    assert!(w[NUM_PARAMS - 1] >= WEIGHT_SCALE - THRESHOLD);
}

#[test]
fn simulation_reports_convergence_and_sentences_consumed() {
    let d = tiny_domain();
    let h = Hypothesis::RewardOnlyVL(weights_for_grammar_one());
    let report: Report = learn_language(&d, &1, h, 5);
    assert_eq!(report.target, 1);
    assert!(report.converged);
    assert_eq!(report.consumed, 1);
    match report.hypothesis {
        Hypothesis::RewardOnlyVL(w) => assert_eq!(w, weights_for_grammar_one()),
        _ => panic!("the variant must be preserved"),
    }
}

#[test]
fn simulation_consumes_the_whole_budget_without_convergence() {
    let mut d = Domain::new();
    d.add_sentence(1, 7);
    d.add_sentence(2, 9);
    let h = Hypothesis::new_reward_only();
    let report: Report = learn_language(&d, &1, h, 3);
    assert_eq!(report.target, 1);
    assert!(!report.converged);
    assert_eq!(report.consumed, 3);
}

#[test]
fn run_target_reports_one_trial_per_run() {
    let d = tiny_domain();
    let reports: Vec<Report> = run_target(&d, &1, 4, 2);
    assert_eq!(reports.len(), 4);
    for report in &reports {
        assert_eq!(report.target, 1);
        assert!(!report.converged);
        assert_eq!(report.consumed, 2);
    }
}

#[test]
fn scheduler_produces_trials_per_target_in_target_order() {
    let mut d = Domain::new();
    d.add_sentence(1, 7);
    d.add_sentence(2, 9);
    let targets: Vec<u16> = vec![1, 2];
    let reports: Vec<Report> = run_scheduler(&d, &targets, 3, 2);
    assert_eq!(reports.len(), 6);
    for (k, report) in reports.iter().enumerate() {
        assert_eq!(report.target, targets[k / 3]);
        assert!(!report.converged);
        assert_eq!(report.consumed, 2);
    }
}

#[test]
fn scheduler_with_no_targets_produces_no_reports() {
    let d = tiny_domain();
    let targets: Vec<u16> = vec![];
    let reports: Vec<Report> = run_scheduler(&d, &targets, 5, 5);
    assert!(reports.is_empty());
}
