//! The per-query pipeline: one pass through primary matching, candidate
//! combination and ranking, ending in a terminal outcome.

use crate::matcher::first_pass;
use crate::matcher::is_first_match;
use crate::query::Config;
use crate::query::Error;
use crate::rank::phase2_post;
use crate::rank::second_pass;
use crate::rank::Outcome;
use crate::text::contains_seq;
use vstd::prelude::*;

verus! {

/// Runs one query against the store: reports `NoPrimaryMatch` exactly when
/// no primary label contains the first token, and otherwise hands the
/// (unique) first match to phase 2 and returns its outcome.
pub fn run<'a>(cfg: &'a Config) -> (r: Result<Outcome<'a>, Error>)
    requires
        cfg.search@.len() > 0,
    ensures
        (forall|i: int|
            0 <= i < cfg.data.primary@.len() ==> !contains_seq(
                (#[trigger] cfg.data.primary@[i]).spec_label(),
                cfg.search@[0]@,
            )) <==> r == Err::<Outcome<'a>, Error>(Error::NoPrimaryMatch),
        (exists|i: int| #[trigger] is_first_match(cfg.data.primary@, cfg.search@[0]@, i))
            ==> exists|i: int|
            #[trigger] is_first_match(cfg.data.primary@, cfg.search@[0]@, i) && phase2_post(
                *cfg,
                cfg.data.primary@[i],
                r,
            ),
{
    match first_pass(cfg) {
        Some(fp) => {
            let r = second_pass(cfg, fp);
            proof {
                let i = choose|i: int|
                    is_first_match(cfg.data.primary@, cfg.search@[0]@, i) && *fp
                        == cfg.data.primary@[i];
                assert(is_first_match(cfg.data.primary@, cfg.search@[0]@, i) && phase2_post(
                    *cfg,
                    cfg.data.primary@[i],
                    r,
                ));
            }
            r
        },
        None => Err(Error::NoPrimaryMatch),
    }
}

} // verus!
