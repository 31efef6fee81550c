//! Query intake: the raw command-line shaped input, the per-query error
//! taxonomy, and the normalizer that lowercases tokens and strips filler
//! words before matching begins.

use crate::options::Data;
use crate::text::lower_of;
use crate::text::lowercase;
use vstd::prelude::*;

verus! {

/// Raw query input: an ordered list of free-text tokens, plus a verbosity
/// flag that the matcher itself never consults.
#[derive(Debug)]
pub struct Cli {
    pub verbose: bool,
    pub search_terms: Vec<String>,
}

/// Per-query failures. All are returned as ordinary outcomes; none aborts
/// the process.
#[derive(Debug, Clone, Copy, PartialEq, Eq, Structural)]
pub enum Error {
    /// The query had zero input tokens.
    EmptyQuery,
    /// The phase-1 scan found no primary label containing the first token.
    NoPrimaryMatch,
    /// Phase 2 found an empty or zero-scoring candidate set.
    NoSecondaryMatch,
}

impl Error {
    /// A human-readable description of the failure.
    pub fn message(&self) -> (r: String)
        ensures
            *self is EmptyQuery ==> r@ == "No search terms used"@,
            *self is NoPrimaryMatch ==> r@ == "Invalid search term"@,
            *self is NoSecondaryMatch ==> r@ == "No match found"@,
    {
        match self {
            Error::EmptyQuery => "No search terms used".to_owned(),
            Error::NoPrimaryMatch => "Invalid search term".to_owned(),
            Error::NoSecondaryMatch => "No match found".to_owned(),
        }
    }
}

/// A filler word that the normalizer strips from a query.
pub open spec fn article(t: Seq<char>) -> bool {
    t == "a"@ || t == "an"@ || t == "the"@
}

/// Holds exactly when `x` is not one of the filler words `a`, `an`, `the`.
pub fn not_article(x: &String) -> (r: bool)
    ensures
        r == !article(x@),
{
    let a: String = "a".to_owned();
    let an: String = "an".to_owned();
    let the: String = "the".to_owned();
    !(*x == a || *x == an || *x == the)
}

/// The normalized form of a token sequence: each token lowercased, and
/// every token whose lowercase form is a filler word removed, in order.
pub open spec fn normalize_spec(ts: Seq<Seq<char>>) -> Seq<Seq<char>>
    decreases ts.len(),
{
    if ts.len() == 0 {
        Seq::empty()
    } else {
        let rest = normalize_spec(ts.drop_last());
        let t = lower_of(ts.last());
        if article(t) {
            rest
        } else {
            rest.push(t)
        }
    }
}

/// How many tokens of `ts` lowercase to a filler word.
pub open spec fn article_count(ts: Seq<Seq<char>>) -> nat
    decreases ts.len(),
{
    if ts.len() == 0 {
        0
    } else {
        article_count(ts.drop_last()) + (if article(lower_of(ts.last())) {
            1nat
        } else {
            0nat
        })
    }
}

/// Normalization removes exactly the filler tokens: the normalized length
/// is the input length minus the number of tokens whose lowercase form is
/// `a`, `an` or `the`.
pub proof fn lemma_normalize_len(ts: Seq<Seq<char>>)
    ensures
        normalize_spec(ts).len() + article_count(ts) == ts.len(),
    decreases ts.len(),
{
    if ts.len() > 0 {
        lemma_normalize_len(ts.drop_last());
    }
}

/// A sequence of tokens that are already lowercase fixed points and free of
/// filler words is left unchanged by normalization; this is what makes
/// normalization idempotent.
pub proof fn lemma_normalize_of_lowered(ts: Seq<Seq<char>>)
    requires
        forall|i: int|
            0 <= i < ts.len() ==> lower_of(#[trigger] ts[i]) == ts[i] && !article(ts[i]),
    ensures
        normalize_spec(ts) == ts,
    decreases ts.len(),
{
    if ts.len() > 0 {
        assert(forall|i: int|
            0 <= i < ts.drop_last().len() ==> #[trigger] ts.drop_last()[i] == ts[i]);
        lemma_normalize_of_lowered(ts.drop_last());
        assert(normalize_spec(ts) =~= ts);
    }
}

/// The Query Normalizer: lowercases every token and strips filler words,
/// preserving the relative order of the surviving tokens. The result is its
/// own normal form, so normalizing twice equals normalizing once.
pub fn normalize_terms(terms: &Vec<String>) -> (r: Vec<String>)
    ensures
        r.deep_view() == normalize_spec(terms.deep_view()),
        normalize_spec(r.deep_view()) == r.deep_view(),
        forall|j: int| 0 <= j < r.deep_view().len() ==> lower_of(#[trigger] r.deep_view()[j]) == r.deep_view()[j],
{
    let mut out: Vec<String> = Vec::new();
    let n = terms.len();
    proof {
        assert(terms.deep_view().take(0) =~= Seq::<Seq<char>>::empty());
    }
    for i in 0..n
        invariant
            n == terms@.len(),
            out.deep_view() == normalize_spec(terms.deep_view().take(i as int)),
            forall|j: int|
                0 <= j < out.deep_view().len() ==> lower_of(#[trigger] out.deep_view()[j])
                    == out.deep_view()[j] && !article(out.deep_view()[j]),
    {
        let low = lowercase(terms[i].as_str());
        let keep = not_article(&low);
        proof {
            assert(terms.deep_view().take(i as int + 1).drop_last() =~= terms.deep_view().take(
                i as int,
            ));
            assert(terms.deep_view().take(i as int + 1).last() == terms.deep_view()[i as int]);
        }
        if keep {
            let ghost prev = out.deep_view();
            out.push(low);
            proof {
                assert(out.deep_view() =~= prev.push(low@));
            }
        }
    }
    proof {
        assert(terms.deep_view().take(n as int) =~= terms.deep_view());
        lemma_normalize_of_lowered(out.deep_view());
    }
    out
}

/// A validated, normalized query together with the option store it will be
/// matched against.
#[derive(Debug)]
pub struct Config {
    pub search: Vec<String>,
    pub data: Data,
}

impl Config {
    /// Builds the per-query configuration: rejects an empty query, then
    /// normalizes the search terms. The option store is taken as given; it
    /// was constructed and validated once at startup.
    pub fn new(cli: Cli, data: Data) -> (r: Result<Config, Error>)
        ensures
            match r {
                Ok(cfg) => {
                    &&& cli.search_terms@.len() >= 1
                    &&& cfg.search.deep_view() == normalize_spec(cli.search_terms.deep_view())
                    &&& normalize_spec(cfg.search.deep_view()) == cfg.search.deep_view()
                    &&& cfg.data == data
                },
                Err(e) => e == Error::EmptyQuery && cli.search_terms@.len() == 0,
            },
    {
        if cli.search_terms.len() < 1 {
            return Err(Error::EmptyQuery);
        }
        let search = normalize_terms(&cli.search_terms);
        Ok(Config { search, data })
    }
}

} // verus!
