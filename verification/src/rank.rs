//! Phase 2: score every candidate phrase by substring containment of the
//! query tokens, find the top score, and resolve ties in stable emission
//! order.

use crate::combine::combined_options;
use crate::combine::combined_spec;
use crate::combine::pairs_match;
use crate::options::OptionValue;
use crate::query::Config;
use crate::query::Error;
use crate::text::contains_seq;
use crate::text::contains_sub;
use vstd::prelude::*;

verus! {

/// The score of a candidate phrase: how many query tokens (each occurrence
/// counted at most once) occur as a substring anywhere in the phrase. This
/// is pure substring containment, not word-boundary matching: a token that
/// sits inside an unrelated longer word of the phrase still counts.
pub open spec fn score_spec(phrase: Seq<char>, terms: Seq<Seq<char>>) -> nat
    decreases terms.len(),
{
    if terms.len() == 0 {
        0
    } else {
        score_spec(phrase, terms.drop_last()) + (if contains_seq(phrase, terms.last()) {
            1nat
        } else {
            0nat
        })
    }
}

/// The greatest score any candidate attains; 0 when there are none.
pub open spec fn top_score(cands: Seq<(Seq<char>, OptionValue)>, terms: Seq<Seq<char>>) -> nat
    decreases cands.len(),
{
    if cands.len() == 0 {
        0
    } else {
        let rest = top_score(cands.drop_last(), terms);
        let s = score_spec(cands.last().0, terms);
        if s > rest {
            s
        } else {
            rest
        }
    }
}

/// The source entries of the candidates scoring exactly `goal`, in their
/// stable emission order; with `goal` the top score this is the tie set.
pub open spec fn ties_at(
    cands: Seq<(Seq<char>, OptionValue)>,
    terms: Seq<Seq<char>>,
    goal: nat,
) -> Seq<OptionValue>
    decreases cands.len(),
{
    if cands.len() == 0 {
        Seq::empty()
    } else {
        let rest = ties_at(cands.drop_last(), terms, goal);
        if score_spec(cands.last().0, terms) == goal {
            rest.push(cands.last().1)
        } else {
            rest
        }
    }
}

/// The tie set contains all and only the source entries of the candidates
/// that attain the goal score, in their stable relative order: it is the
/// candidate list filtered to that score and projected to its entries.
pub proof fn lemma_ties_at_characterization(
    cands: Seq<(Seq<char>, OptionValue)>,
    terms: Seq<Seq<char>>,
    goal: nat,
)
    ensures
        ties_at(cands, terms, goal) == cands.filter(
            |c: (Seq<char>, OptionValue)| score_spec(c.0, terms) == goal,
        ).map_values(|c: (Seq<char>, OptionValue)| c.1),
    decreases cands.len(),
{
    reveal(Seq::filter);
    let pred = |c: (Seq<char>, OptionValue)| score_spec(c.0, terms) == goal;
    let proj = |c: (Seq<char>, OptionValue)| c.1;
    if cands.len() == 0 {
        assert(cands.filter(pred).map_values(proj) =~= Seq::<OptionValue>::empty());
    } else {
        let rest = cands.drop_last();
        lemma_ties_at_characterization(rest, terms, goal);
        if pred(cands.last()) {
            assert(cands.filter(pred) == rest.filter(pred).push(cands.last()));
            assert(rest.filter(pred).push(cands.last()).map_values(proj) =~= rest.filter(
                pred,
            ).map_values(proj).push(cands.last().1));
        } else {
            assert(cands.filter(pred) == rest.filter(pred));
        }
    }
}

/// The top score is attained: a non-empty candidate set has a non-empty tie
/// set at its top score.
pub proof fn lemma_top_attained(cands: Seq<(Seq<char>, OptionValue)>, terms: Seq<Seq<char>>)
    requires
        cands.len() > 0,
    ensures
        ties_at(cands, terms, top_score(cands, terms)).len() > 0,
    decreases cands.len(),
{
    let top = top_score(cands, terms);
    let s = score_spec(cands.last().0, terms);
    if cands.len() == 1 {
        assert(top_score(cands.drop_last(), terms) == 0);
        assert(s == top);
        assert(ties_at(cands, terms, top) == ties_at(cands.drop_last(), terms, top).push(
            cands.last().1,
        ));
    } else if s == top {
        assert(ties_at(cands, terms, top) == ties_at(cands.drop_last(), terms, top).push(
            cands.last().1,
        ));
    } else {
        assert(top == top_score(cands.drop_last(), terms));
        lemma_top_attained(cands.drop_last(), terms);
        assert(ties_at(cands, terms, top) == ties_at(cands.drop_last(), terms, top));
    }
}

/// Scores one candidate phrase against every query token.
pub fn score_of(phrase: &String, terms: &Vec<String>) -> (r: usize)
    ensures
        r == score_spec(phrase@, terms.deep_view()),
{
    let mut score: usize = 0;
    let n = terms.len();
    proof {
        assert(terms.deep_view().take(0) =~= Seq::<Seq<char>>::empty());
    }
    for i in 0..n
        invariant
            n == terms@.len(),
            score <= i,
            score == score_spec(phrase@, terms.deep_view().take(i as int)),
    {
        proof {
            assert(terms.deep_view().take(i as int + 1).drop_last() =~= terms.deep_view().take(
                i as int,
            ));
            assert(terms.deep_view().take(i as int + 1).last() == terms.deep_view()[i as int]);
        }
        if contains_sub(phrase.as_str(), terms[i].as_str()) {
            score = score + 1;
        }
    }
    proof {
        assert(terms.deep_view().take(n as int) =~= terms.deep_view());
    }
    score
}

/// The ranked outcome of phase 2: either a single best candidate, or the
/// full tie set when several candidates share the top score.
#[derive(Debug)]
pub enum Outcome<'a> {
    /// Exactly one candidate attained the top score.
    Definitive(&'a OptionValue),
    /// Two or more candidates share the top score, in stable relative order.
    Ambiguous(Vec<&'a OptionValue>),
}

/// What phase 2 promises for a phase-1 match `fp`: `NoSecondaryMatch`
/// exactly on an empty or zero-scoring candidate set, a definitive result
/// exactly when one candidate attains the (positive) top score, and the
/// enumerated tie set, in order, when several do.
pub open spec fn phase2_post<'a>(
    cfg: Config,
    fp: OptionValue,
    r: Result<Outcome<'a>, Error>,
) -> bool {
    let cands = combined_spec(cfg.data, fp.spec_value());
    let terms = cfg.search.deep_view();
    let top = top_score(cands, terms);
    let ties = ties_at(cands, terms, top);
    match r {
        Err(e) => e == Error::NoSecondaryMatch && (cands.len() == 0 || top == 0),
        Ok(o) => top > 0 && match o {
            Outcome::Definitive(x) => ties.len() == 1 && *x == ties[0],
            Outcome::Ambiguous(v) => {
                &&& ties.len() > 1
                &&& v@.len() == ties.len()
                &&& forall|k: int| 0 <= k < ties.len() ==> *(#[trigger] v@[k]) == ties[k]
            },
        },
    }
}

/// Phase 2: builds the candidate list for the phase-1 match, scores every
/// candidate against the full normalized query, and resolves the tie set at
/// the top score.
pub fn second_pass<'a>(cfg: &'a Config, fp_res: &'a OptionValue) -> (r: Result<
    Outcome<'a>,
    Error,
>)
    ensures
        phase2_post(*cfg, *fp_res, r),
{
    let fp_value = fp_res.get_value();
    let possible_options = combined_options(cfg, fp_value);
    let ghost cands = combined_spec(cfg.data, fp_res.spec_value());
    let ghost terms = cfg.search.deep_view();

    let n = possible_options.len();
    let mut scores: Vec<usize> = Vec::new();
    let mut top: usize = 0;
    proof {
        assert(cands.take(0) =~= Seq::<(Seq<char>, OptionValue)>::empty());
    }
    for i in 0..n
        invariant
            pairs_match(possible_options@, cands),
            n == possible_options@.len(),
            terms == cfg.search.deep_view(),
            scores@.len() == i,
            forall|j: int| 0 <= j < i ==> scores@[j] == score_spec(cands[j].0, terms),
            top == top_score(cands.take(i as int), terms),
    {
        let s = score_of(&possible_options[i].0, &cfg.search);
        if s > top {
            top = s;
        }
        scores.push(s);
        proof {
            assert(cands.take(i as int + 1).drop_last() =~= cands.take(i as int));
            assert(cands.take(i as int + 1).last() == cands[i as int]);
        }
    }
    proof {
        assert(cands.take(n as int) =~= cands);
    }

    if n == 0 || top == 0 {
        return Err(Error::NoSecondaryMatch);
    }

    let mut ties: Vec<&'a OptionValue> = Vec::new();
    proof {
        assert(ties_at(cands.take(0), terms, top as nat) =~= Seq::<OptionValue>::empty());
    }
    for i in 0..n
        invariant
            pairs_match(possible_options@, cands),
            n == possible_options@.len(),
            terms == cfg.search.deep_view(),
            scores@.len() == n,
            forall|j: int| 0 <= j < n ==> scores@[j] == score_spec(cands[j].0, terms),
            ties@.len() == ties_at(cands.take(i as int), terms, top as nat).len(),
            forall|j: int|
                0 <= j < ties@.len() ==> *(#[trigger] ties@[j]) == ties_at(
                    cands.take(i as int),
                    terms,
                    top as nat,
                )[j],
    {
        proof {
            assert(cands.take(i as int + 1).drop_last() =~= cands.take(i as int));
            assert(cands.take(i as int + 1).last() == cands[i as int]);
        }
        if scores[i] == top {
            ties.push(possible_options[i].1);
        }
    }
    proof {
        assert(cands.take(n as int) =~= cands);
        lemma_top_attained(cands, terms);
    }

    if ties.len() == 1 {
        let node = ties[0];
        Ok(Outcome::Definitive(node))
    } else {
        Ok(Outcome::Ambiguous(ties))
    }
}

} // verus!
