//! The corpus index: an immutable mapping from grammar identifier to the
//! set of sentence identifiers that grammar generates, built once at load
//! time and then only queried.

use std::collections::HashMap;
use vstd::prelude::*;

verus! {

broadcast use vstd::std_specs::hash::group_hash_axioms;

/// Lookup failure: the grammar identifier is not a key of the Domain. This
/// is an expected, frequent outcome of weighted sampling, recovered by
/// resampling, never surfaced.
pub struct IllegalGrammar(pub u16);

/// Mapping from grammar identifier to the sentences it generates. Each
/// sentence list holds its sentences once: see [`Domain::wf`].
pub struct Domain {
    pub language: HashMap<u16, Vec<u32>>,
}

/// No sentence identifier occurs twice.
pub open spec fn seq_no_dup(s: Seq<u32>) -> bool {
    forall|i: int, j: int| 0 <= i < j < s.len() ==> s[i] != s[j]
}

impl Domain {
    /// Every grammar's sentence list is duplicate-free, so it stands for a
    /// set of sentence identifiers.
    pub open spec fn wf(self) -> bool {
        forall|g: u16| #[trigger]
            self.language@.contains_key(g) ==> seq_no_dup(self.language@[g]@)
    }

    pub fn new() -> (d: Domain)
        ensures
            d.language@ == Map::<u16, Vec<u32>>::empty(),
            d.wf(),
    {
        let lang = HashMap::new();
        Domain { language: lang }
    }

    /// Records that `grammar` generates `sentence`. A sentence already
    /// recorded for that grammar is not recorded twice; other grammars'
    /// sentence lists are untouched.
    pub fn add_sentence(&mut self, grammar: u16, sentence: u32)
        requires
            old(self).wf(),
        ensures
            final(self).wf(),
            final(self).language@.dom() == old(self).language@.dom().insert(grammar),
            final(self).language@[grammar]@ == (if old(self).language@.contains_key(grammar) {
                if old(self).language@[grammar]@.contains(sentence) {
                    old(self).language@[grammar]@
                } else {
                    old(self).language@[grammar]@.push(sentence)
                }
            } else {
                seq![sentence]
            }),
            forall|k: u16|
                k != grammar ==> #[trigger] final(self).language@.contains_key(k)
                    == old(self).language@.contains_key(k),
            forall|k: u16|
                k != grammar && old(self).language@.contains_key(k)
                    ==> #[trigger] final(self).language@[k] == old(self).language@[k],
    {
        let previous = self.language.remove(&grammar);
        match previous {
            Some(mut sentences) => {
                if !vec_contains_u32(&sentences, sentence) {
                    sentences.push(sentence);
                    proof {
                        lemma_push_fresh_keeps_no_dup(
                            old(self).language@[grammar]@,
                            sentence,
                        );
                    }
                }
                self.language.insert(grammar, sentences);
            },
            None => {
                let mut sentences: Vec<u32> = Vec::new();
                sentences.push(sentence);
                self.language.insert(grammar, sentences);
            },
        }
        proof {
            assert(self.language@.dom() =~= old(self).language@.dom().insert(grammar));
        }
    }

    /// Load-time sanity check of the fixed corpus: the expected number of
    /// languages, and the expected sentence count and a few known sentences
    /// in the English-like language.
    pub open spec fn spec_corpus_shape_ok(self) -> bool {
        &&& self.language@.len() == 3072
        &&& self.language@.contains_key(611u16)
        &&& self.language@[611u16]@.len() == 360
        &&& self.language@[611u16]@.contains(3138u32)
        &&& self.language@[611u16]@.contains(1970u32)
        &&& self.language@[611u16]@.contains(5871u32)
        &&& self.language@[611u16]@.contains(6923u32)
        &&& self.language@[611u16]@.contains(1969u32)
    }

    /// Checks the load-time corpus shape contract: a simulation must not run
    /// against a corpus that fails it.
    pub fn corpus_shape_ok(&self) -> (r: bool)
        ensures
            r == self.spec_corpus_shape_ok(),
    {
        if self.language.len() != 3072 {
            return false;
        }
        match self.language.get(&611u16) {
            Some(english) => english.len() == 360 && vec_contains_u32(english, 3138)
                && vec_contains_u32(english, 1970) && vec_contains_u32(english, 5871)
                && vec_contains_u32(english, 6923) && vec_contains_u32(english, 1969),
            None => false,
        }
    }
}

proof fn lemma_push_fresh_keeps_no_dup(s: Seq<u32>, x: u32)
    requires
        seq_no_dup(s),
        !s.contains(x),
    ensures
        seq_no_dup(s.push(x)),
{
    let t = s.push(x);
    assert forall|i: int, j: int| 0 <= i < j < t.len() implies t[i] != t[j] by {
        if j < s.len() {
            assert(t[i] == s[i] && t[j] == s[j]);
        } else {
            assert(t[j] == x);
            assert(t[i] == s[i]);
            assert(!s.contains(x));
        }
    }
}

/// Linear membership test over a sentence list.
fn vec_contains_u32(v: &Vec<u32>, x: u32) -> (r: bool)
    ensures
        r == v@.contains(x),
{
    let mut i: usize = 0;
    while i < v.len()
        invariant
            i <= v@.len(),
            forall|k: int| 0 <= k < i ==> v@[k] != x,
        decreases v@.len() - i,
    {
        if v[i] == x {
            return true;
        }
        i = i + 1;
    }
    false
}

/// Whether `grammar` parses `sentence`: a membership test in the grammar's
/// sentence set, or the illegal-grammar condition when `grammar` is not a
/// key of the Domain.
pub fn sentence_parses(domain: &Domain, grammar: &u16, sentence: &u32) -> (r: Result<
    bool,
    IllegalGrammar,
>)
    ensures
        match r {
            Ok(parses) => domain.language@.contains_key(*grammar) && parses
                == domain.language@[*grammar]@.contains(*sentence),
            Err(e) => !domain.language@.contains_key(*grammar) && e.0 == *grammar,
        },
{
    match domain.language.get(grammar) {
        Some(sentences) => Ok(vec_contains_u32(sentences, *sentence)),
        None => Err(IllegalGrammar(*grammar)),
    }
}

} // verus!
