//! A small polymorphic value type for match-testing text: either an exact
//! literal string or a compiled regular expression, chosen at parse time by a
//! lightweight textual convention (enclosing slashes with optional trailing
//! flags).

mod classify;
mod engine;
mod laws;
mod text;
mod value;

pub use classify::{build_regex, extract_regex, spec_extract, InvalidPattern};
pub use engine::{regex_accepts, regex_match, CompiledRegex};
pub use laws::{
    lemma_as_str_idempotent, lemma_eq_variant_aware, lemma_hash_consistency,
    lemma_literal_self_match, lemma_no_leading_slash_is_literal, lemma_pattern_classification,
    lemma_unclosed_slash_is_literal,
};
pub use text::{contains_char, has_char, last_index_of, str_eq};
pub use value::{spec_as_str, spec_eq, spec_is_match, Matchable, RegexOnly};
