//! The library's general laws, each stated over all inputs and proved once.

use vstd::prelude::*;

use crate::classify::spec_extract;
use crate::text::{has_char, lemma_last_index_of_absent, lemma_last_index_of_at};
use crate::value::{spec_as_str, spec_eq, spec_is_match, Matchable};

verus! {

/// A string with no leading slash — the empty string among them — is never
/// split by the classifier: it is classified as a literal of itself.
pub proof fn lemma_no_leading_slash_is_literal(s: Seq<char>)
    requires
        s.len() == 0 || s[0] != '/',
    ensures
        spec_extract(s) is None,
{
}

/// A leading slash with no later slash is not enough evidence of pattern
/// intent: such a string is also classified as a literal of itself, leading
/// slash included.
pub proof fn lemma_unclosed_slash_is_literal(s: Seq<char>)
    requires
        s.len() > 0,
        s[0] == '/',
        forall|k: int| 1 <= k < s.len() ==> s[k] != '/',
    ensures
        spec_extract(s) is None,
{
    let rest = s.subrange(1, s.len() as int);
    assert(forall|k: int| 0 <= k < rest.len() ==> rest[k] == s[k + 1] && s[k + 1] != '/');
    lemma_last_index_of_absent(rest, '/');
}

/// A literal matches exactly its own text: the text itself matches, and no
/// extension of it by a further character does.
pub proof fn lemma_literal_self_match(m: &Matchable, x: char)
    requires
        m is Str,
    ensures
        spec_is_match(m, spec_as_str(m)),
        !spec_is_match(m, spec_as_str(m).push(x)),
{
    assert(spec_as_str(m).push(x).len() != spec_as_str(m).len());
}

/// Classifying `"/" + p + "/" + f`, for any pattern body `p` and any flags
/// suffix `f` without a slash, splits out exactly `p` and `f`; by the parse
/// contract, the flag settings requested from the engine are then exactly
/// those read from `f`.
pub proof fn lemma_pattern_classification(p: Seq<char>, f: Seq<char>)
    requires
        !has_char(f, '/'),
    ensures
        spec_extract(seq!['/'] + p + seq!['/'] + f) == Some((p, f)),
{
    let s = seq!['/'] + p + seq!['/'] + f;
    let rest = s.subrange(1, s.len() as int);
    assert(rest =~= p + seq!['/'] + f);
    assert(rest[p.len() as int] == '/');
    assert(forall|k: int| p.len() < k < rest.len() ==> rest[k] == f[k - p.len() - 1]);
    lemma_last_index_of_at(rest, '/', p.len() as int);
    assert(rest.subrange(0, p.len() as int) =~= p);
    assert(rest.subrange((p.len() + 1) as int, rest.len() as int) =~= f);
    assert(spec_extract(s) =~~= Some((p, f)));
}

/// Rendering returns the stored text unchanged: the literal text for a
/// literal, the bare pattern source (no delimiters, no flags) for a pattern.
pub proof fn lemma_as_str_idempotent(m: &Matchable)
    ensures
        m matches Matchable::Str(t) ==> spec_as_str(m) == t@,
        m matches Matchable::Regex(re) ==> spec_as_str(m) == re.spec_source(),
{
}

/// Equality is variant-aware: literals compare by their text, patterns by
/// their source text alone, and values of different variants are never equal.
pub proof fn lemma_eq_variant_aware(a: &Matchable, b: &Matchable)
    ensures
        a is Str && b is Str ==> (spec_eq(a, b) <==> spec_as_str(a) == spec_as_str(b)),
        a is Regex && b is Regex ==> (spec_eq(a, b) <==> spec_as_str(a) == spec_as_str(b)),
        (a is Str) != (b is Str) ==> !spec_eq(a, b),
{
}

/// Equal values render as the same text, so a hash taken over the rendered
/// text — the literal text for a literal, the pattern source for a pattern,
/// as the hashing contract prescribes — is identical for equal values.
pub proof fn lemma_hash_consistency(a: &Matchable, b: &Matchable)
    requires
        spec_eq(a, b),
    ensures
        spec_as_str(a) == spec_as_str(b),
{
}

} // verus!
