//! Simulation of variational language learners over a fixed domain of
//! parameter-encoded grammars.
//!
//! A grammar is a 13-bit identifier, one bit per binary syntactic parameter.
//! A variational learner keeps one weight per parameter and nudges each
//! weight toward the bit values of candidate grammars that parse observed
//! sentences, until every weight settles near 0 or 1.
//!
//! Weights are fixed-point numbers counted in millionths of 1, so that the
//! arithmetic of the update rule is exact integer arithmetic: an initial
//! weight of one half is `500_000`, the learning rate of one thousandth is a
//! division by `1_000`, and the convergence threshold of one fiftieth is
//! `20_000`.

use vstd::prelude::*;

pub mod codec;
pub mod colag;
pub mod learner;
mod rng;
pub mod sim;

verus! {

/// Number of binary syntactic parameters in a grammar.
pub const NUM_PARAMS: usize = 13;

/// Largest grammar identifier: only the low `NUM_PARAMS` bits may be set.
pub const MAX_GRAMMAR: u16 = 0x1FFF;

/// Fixed-point scale: the weight value that stands for 1.0.
pub const WEIGHT_SCALE: u64 = 1_000_000;

/// Initial weight of every parameter: one half, maximal uncertainty.
pub const INIT_WEIGHT: u64 = 500_000;

/// The learning rate is the reciprocal of this divisor: one thousandth.
pub const RATE_DIVISOR: u64 = 1_000;

/// Convergence threshold: one fiftieth of the scale. A weight is settled
/// when it is at most this far from 0 or from `WEIGHT_SCALE`.
pub const THRESHOLD: u64 = 20_000;

/// Sentence budget of one simulation run.
pub const NUM_SENTENCES: u32 = 2_000_000;

/// Number of independent trials per target language.
pub const RUNS_PER_LANGUAGE: u32 = 100;

} // verus!
