//! Phase 1: select the first primary entry whose label contains the first
//! query token.

use crate::options::OptionValue;
use crate::query::Config;
use crate::text::contains_seq;
use crate::text::contains_sub;
use vstd::prelude::*;

verus! {

/// Index `i` points at the first primary entry whose label contains `term`
/// as a substring: the entry at `i` matches and no earlier entry does.
pub open spec fn is_first_match(primary: Seq<OptionValue>, term: Seq<char>, i: int) -> bool {
    &&& 0 <= i < primary.len()
    &&& contains_seq(primary[i].spec_label(), term)
    &&& forall|j: int|
        0 <= j < i ==> !contains_seq(#[trigger] primary[j].spec_label(), term)
}

/// The Primary Matcher is deterministic: a given tree and token admit at
/// most one first-match position, so two scans over the same inputs return
/// the same entry.
pub proof fn lemma_first_match_unique(primary: Seq<OptionValue>, term: Seq<char>, i: int, j: int)
    requires
        is_first_match(primary, term, i),
        is_first_match(primary, term, j),
    ensures
        i == j,
{
    if i < j {
        assert(!contains_seq(primary[i].spec_label(), term));
    }
    if j < i {
        assert(!contains_seq(primary[j].spec_label(), term));
    }
}

/// Phase 1: linear scan of the primary entries in insertion order; returns
/// the first entry whose label contains the first query token, or nothing
/// when no label does. Earlier entries win by design.
pub fn first_pass<'a>(cfg: &'a Config) -> (r: Option<&'a OptionValue>)
    requires
        cfg.search@.len() > 0,
    ensures
        match r {
            Some(o) => exists|i: int|
                #[trigger] is_first_match(cfg.data.primary@, cfg.search@[0]@, i) && *o
                    == cfg.data.primary@[i],
            None => forall|i: int|
                0 <= i < cfg.data.primary@.len() ==> !contains_seq(
                    (#[trigger] cfg.data.primary@[i]).spec_label(),
                    cfg.search@[0]@,
                ),
        },
{
    let term = &cfg.search[0];
    let options = &cfg.data.primary;
    let n = options.len();
    for i in 0..n
        invariant
            cfg.search@.len() > 0,
            term@ == cfg.search@[0]@,
            n == cfg.data.primary@.len(),
            options@ == cfg.data.primary@,
            forall|j: int|
                0 <= j < i ==> !contains_seq(
                    (#[trigger] cfg.data.primary@[j]).spec_label(),
                    cfg.search@[0]@,
                ),
    {
        let label = options[i].get_label();
        if contains_sub(label.as_str(), term.as_str()) {
            proof {
                assert(is_first_match(cfg.data.primary@, cfg.search@[0]@, i as int));
            }
            return Some(&options[i]);
        }
    }
    None
}

} // verus!
