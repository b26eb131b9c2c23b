//! The per-target simulation loop and the scheduler that fans independent
//! trials out over a list of target languages.

use vstd::prelude::*;

use crate::colag::Domain;
use crate::learner::consume_sentence;
use crate::learner::Hypothesis;
use crate::rng::random_below;

verus! {

broadcast use vstd::std_specs::hash::group_hash_axioms;

/// The outcome of one completed trial: the final hypothesis, the target
/// grammar it was learning, whether it converged, and how many sentences it
/// consumed (the whole budget when it did not converge).
pub struct Report {
    pub hypothesis: Hypothesis,
    pub target: u16,
    pub converged: bool,
    pub consumed: u32,
}

/// What a single trial promises of its Report.
pub open spec fn report_ok(r: Report, target: u16, budget: u32) -> bool {
    &&& r.target == target
    &&& r.hypothesis.wf()
    &&& r.converged ==> r.hypothesis.spec_converged() && 1 <= r.consumed <= budget
    &&& !r.converged ==> r.consumed == budget
    &&& budget > 0 && !r.converged ==> !r.hypothesis.spec_converged()
}

/// Drives one trial: up to `budget` times, draw one sentence of the target
/// language at random (with replacement), feed it to the hypothesis, and
/// stop at the first convergence check that succeeds.
pub fn learn_language(colag: &Domain, target: &u16, hypothesis: Hypothesis, budget: u32) -> (r:
    Report)
    requires
        colag.language@.contains_key(*target),
        colag.language@[*target]@.len() > 0,
        hypothesis.wf(),
        hypothesis.updatable(),
    ensures
        report_ok(r, *target, budget),
        r.hypothesis.updatable(),
        hypothesis is RewardOnlyVL ==> r.hypothesis is RewardOnlyVL,
        hypothesis is RewardOnlyRelevantVL ==> r.hypothesis is RewardOnlyRelevantVL,
{
    let sentences = colag.language.get(target).unwrap();
    let n = sentences.len();
    let mut hyp = hypothesis;
    let mut converged_flag = false;
    let mut steps: u32 = 0;
    while steps < budget && !converged_flag
        invariant
            n == sentences@.len(),
            n > 0,
            hyp.wf(),
            hyp.updatable(),
            steps <= budget,
            converged_flag ==> hyp.spec_converged() && steps >= 1,
            steps > 0 && !converged_flag ==> !hyp.spec_converged(),
            hypothesis is RewardOnlyVL ==> hyp is RewardOnlyVL,
            hypothesis is RewardOnlyRelevantVL ==> hyp is RewardOnlyRelevantVL,
        decreases budget - steps,
    {
        steps = steps + 1;
        let idx = random_below(n as u64) as usize;
        let sentence = sentences[idx];
        hyp = consume_sentence(hyp, colag, &sentence);
        converged_flag = hyp.converged();
    }
    let consumed = if converged_flag {
        steps
    } else {
        budget
    };
    Report { hypothesis: hyp, target: *target, converged: converged_flag, consumed }
}

/// One target language's worker: runs `trials` independent trials in order,
/// each from a freshly initialized reward-only hypothesis.
pub fn run_target(colag: &Domain, target: &u16, trials: u32, budget: u32) -> (reports: Vec<Report>)
    requires
        colag.language@.contains_key(*target),
        colag.language@[*target]@.len() > 0,
    ensures
        reports@.len() == trials,
        forall|k: int|
            0 <= k < reports@.len() ==> report_ok(#[trigger] reports@[k], *target, budget),
        forall|k: int| 0 <= k < reports@.len() ==> (#[trigger] reports@[k]).hypothesis
            is RewardOnlyVL,
{
    let mut reports: Vec<Report> = Vec::new();
    let mut t: u32 = 0;
    while t < trials
        invariant
            colag.language@.contains_key(*target),
            colag.language@[*target]@.len() > 0,
            t <= trials,
            reports@.len() == t,
            forall|k: int|
                0 <= k < reports@.len() ==> report_ok(#[trigger] reports@[k], *target, budget),
            forall|k: int| 0 <= k < reports@.len() ==> (#[trigger] reports@[k]).hypothesis
                is RewardOnlyVL,
        decreases trials - t,
    {
        let hypothesis = Hypothesis::new_reward_only();
        let report = learn_language(colag, target, hypothesis, budget);
        reports.push(report);
        t = t + 1;
    }
    reports
}

/// The Run Scheduler: for each of the `targets`, in order, runs `trials`
/// independent trials, and collects every Report. Exactly
/// `targets.len() * trials` Reports come back, laid out target by target:
/// report `k` belongs to target `k / trials`.
pub fn run_scheduler(colag: &Domain, targets: &Vec<u16>, trials: u32, budget: u32) -> (reports: Vec<
    Report,
>)
    requires
        forall|i: int|
            0 <= i < targets@.len() ==> colag.language@.contains_key(#[trigger] targets@[i])
                && colag.language@[targets@[i]]@.len() > 0,
    ensures
        reports@.len() == targets@.len() * trials,
        forall|k: int|
            0 <= k < reports@.len() ==> report_ok(
                #[trigger] reports@[k],
                targets@[k / (trials as int)],
                budget,
            ),
{
    let mut reports: Vec<Report> = Vec::new();
    let mut i: usize = 0;
    while i < targets.len()
        invariant
            forall|a: int|
                0 <= a < targets@.len() ==> colag.language@.contains_key(#[trigger] targets@[a])
                    && colag.language@[targets@[a]]@.len() > 0,
            i <= targets@.len(),
            reports@.len() == i * (trials as int),
            forall|k: int|
                0 <= k < reports@.len() ==> report_ok(
                    #[trigger] reports@[k],
                    targets@[k / (trials as int)],
                    budget,
                ),
        decreases targets@.len() - i,
    {
        let target = targets[i];
        let mut batch = run_target(colag, &target, trials, budget);
        let ghost old_reports = reports@;
        let ghost batch0 = batch@;
        reports.append(&mut batch);
        proof {
            assert((i + 1) * (trials as int) == i * (trials as int) + trials as int)
                by (nonlinear_arith);
            assert forall|k: int|
                0 <= k < reports@.len() implies report_ok(
                #[trigger] reports@[k],
                targets@[k / (trials as int)],
                budget,
            ) by {
                if k < old_reports.len() {
                    assert(reports@[k] == old_reports[k]);
                } else {
                    assert(reports@[k] == batch0[k - old_reports.len()]);
                    assert(i * (trials as int) <= k < (i + 1) * (trials as int));
                    assert(k / (trials as int) == i) by (nonlinear_arith)
                        requires
                            trials > 0,
                            i * (trials as int) <= k < (i + 1) * (trials as int),
                    ;
                }
            }
        }
        i = i + 1;
    }
    reports
}

} // verus!
