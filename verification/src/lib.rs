//! Maps a free-text query onto a command usage string drawn from a bundled,
//! hierarchical reference of options: query normalization, first-match
//! primary selection, secondary/tertiary candidate expansion, and
//! substring-containment scoring with stable tie handling.

mod combine;
mod matcher;
mod options;
mod pipeline;
mod query;
mod rank;
mod text;

pub use combine::combine_node;
pub use combine::combined_from;
pub use combine::combined_options;
pub use combine::combined_spec;
pub use combine::pairs_match;
pub use matcher::first_pass;
pub use matcher::is_first_match;
pub use matcher::lemma_first_match_unique;
pub use options::assoc_get;
pub use options::Data;
pub use options::OptionMap;
pub use options::OptionValue;
pub use pipeline::run;
pub use query::article;
pub use query::article_count;
pub use query::lemma_normalize_len;
pub use query::lemma_normalize_of_lowered;
pub use query::normalize_spec;
pub use query::normalize_terms;
pub use query::not_article;
pub use query::Cli;
pub use query::Config;
pub use query::Error;
pub use rank::lemma_ties_at_characterization;
pub use rank::lemma_top_attained;
pub use rank::phase2_post;
pub use rank::score_of;
pub use rank::score_spec;
pub use rank::second_pass;
pub use rank::ties_at;
pub use rank::top_score;
pub use rank::Outcome;
pub use text::contains_seq;
pub use text::join2;
pub use text::join3;
pub use text::lower_of;
