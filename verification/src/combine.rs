//! The Option Combiner: expands the phase-1 key through the secondary and
//! tertiary tiers into the flat, ordered list of candidate phrases, each
//! paired with the option entry that supplies its usage text.

use crate::options::Data;
use crate::options::OptionValue;
use crate::query::Config;
use crate::text::join2;
use crate::text::join2_exec;
use crate::text::join3;
use crate::text::join3_exec;
use vstd::prelude::*;

verus! {

/// The candidate pairs that one secondary entry `s` contributes under key
/// `key`: a `TierOne` entry indirects to the tertiary tier and contributes
/// one three-part phrase per tertiary entry found there (none when its key
/// is absent), while a terminal entry contributes its own two-part phrase.
pub open spec fn combine_node(data: Data, key: Seq<char>, s: OptionValue) -> Seq<
    (Seq<char>, OptionValue),
> {
    if s is TierOne {
        match data.tertiary.spec_get(s.spec_value()) {
            Some(ts) => Seq::new(
                ts.len(),
                |j: int| (join3(key, s.spec_label(), ts[j].spec_label()), ts[j]),
            ),
            None => Seq::empty(),
        }
    } else {
        seq![(join2(key, s.spec_label()), s)]
    }
}

/// The candidate pairs contributed by the secondary entries `ss`, in order.
pub open spec fn combined_from(data: Data, key: Seq<char>, ss: Seq<OptionValue>) -> Seq<
    (Seq<char>, OptionValue),
>
    decreases ss.len(),
{
    if ss.len() == 0 {
        Seq::empty()
    } else {
        combined_from(data, key, ss.drop_last()) + combine_node(data, key, ss.last())
    }
}

/// Every fully-expanded candidate phrase reachable from the phase-1 key,
/// in tie-break order; empty when the key has no secondary entry.
pub open spec fn combined_spec(data: Data, key: Seq<char>) -> Seq<(Seq<char>, OptionValue)> {
    match data.secondary.spec_get(key) {
        Some(ss) => combined_from(data, key, ss),
        None => Seq::empty(),
    }
}

/// The executable candidate list mirrors the specification list pairwise:
/// same length, same phrases, same source entries.
pub open spec fn pairs_match<'a>(
    v: Seq<(String, &'a OptionValue)>,
    m: Seq<(Seq<char>, OptionValue)>,
) -> bool {
    &&& v.len() == m.len()
    &&& forall|i: int|
        0 <= i < v.len() ==> (#[trigger] v[i]).0@ == m[i].0 && *v[i].1 == m[i].1
}

/// Builds the candidate list for the phase-1 key `term`: looks the key up in
/// the secondary tier (absence yields the empty list, a normal outcome, not
/// an error) and expands each secondary entry in order.
pub fn combined_options<'a>(cfg: &'a Config, term: &String) -> (r: Vec<(String, &'a OptionValue)>)
    ensures
        pairs_match(r@, combined_spec(cfg.data, term@)),
        cfg.data.secondary.spec_get(term@) is None ==> r@.len() == 0,
{
    let mut combined: Vec<(String, &'a OptionValue)> = Vec::new();
    match cfg.data.secondary.get(term) {
        None => {
        },
        Some(secondary) => {
            let m = secondary.len();
            proof {
                assert(secondary@.take(0) =~= Seq::<OptionValue>::empty());
            }
            for si in 0..m
                invariant
                    cfg.data.secondary.spec_get(term@) == Some(secondary@),
                    m == secondary@.len(),
                    pairs_match(
                        combined@,
                        combined_from(cfg.data, term@, secondary@.take(si as int)),
                    ),
            {
                let ghost base = combined_from(cfg.data, term@, secondary@.take(si as int));
                let s = &secondary[si];
                match s {
                    OptionValue::TierOne { label, value } => {
                        match cfg.data.tertiary.get(value) {
                            Some(tertiary_data) => {
                                let ghost cn = combine_node(cfg.data, term@, *s);
                                let k = tertiary_data.len();
                                proof {
                                    assert(cn =~= Seq::new(
                                        tertiary_data@.len(),
                                        |j: int|
                                            (
                                                join3(
                                                    term@,
                                                    s.spec_label(),
                                                    tertiary_data@[j].spec_label(),
                                                ),
                                                tertiary_data@[j],
                                            ),
                                    ));
                                }
                                for ti in 0..k
                                    invariant
                                        k == tertiary_data@.len(),
                                        cn.len() == k,
                                        forall|j: int|
                                            0 <= j < k ==> #[trigger] cn[j] == (
                                                join3(
                                                    term@,
                                                    s.spec_label(),
                                                    tertiary_data@[j].spec_label(),
                                                ),
                                                tertiary_data@[j],
                                            ),
                                        s.spec_label() == label@,
                                        pairs_match(combined@, base + cn.take(ti as int)),
                                {
                                    let t = &tertiary_data[ti];
                                    let t_label = t.get_label();
                                    let combined_label = join3_exec(term, label, t_label);
                                    combined.push((combined_label, t));
                                    proof {
                                        assert(base + cn.take(ti as int + 1) =~= (base + cn.take(
                                            ti as int,
                                        )).push(cn[ti as int]));
                                    }
                                }
                                proof {
                                    assert(cn.take(k as int) =~= cn);
                                }
                            },
                            None => {
                                proof {
                                    assert(combine_node(cfg.data, term@, *s) =~= Seq::<
                                        (Seq<char>, OptionValue),
                                    >::empty());
                                    assert(base + combine_node(cfg.data, term@, *s) =~= base);
                                }
                            },
                        }
                    },
                    _ => {
                        let s_label = s.get_label();
                        combined.push((join2_exec(term, s_label), s));
                        proof {
                            assert((base + combine_node(cfg.data, term@, *s)).len() == base.len()
                                + 1);
                        }
                    },
                }
                proof {
                    assert(secondary@.take(si as int + 1).drop_last() =~= secondary@.take(
                        si as int,
                    ));
                    assert(combined_from(cfg.data, term@, secondary@.take(si as int + 1)) == base
                        + combine_node(cfg.data, term@, secondary@[si as int]));
                }
            }
            proof {
                assert(secondary@.take(m as int) =~= secondary@);
            }
        },
    }
    combined
}

} // verus!
