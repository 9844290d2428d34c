//! The textual classifier: given a raw string, decide whether it encodes a
//! pattern (a leading slash, a pattern body, a last slash, then flags) or a
//! literal, and on the pattern path compile it under the requested flags.
//!
//! The grammar is `LITERAL | "/" PATTERN_BODY "/" FLAGS`, where the split is
//! at the *last* slash of the remainder after the leading one. A string with
//! no leading slash, or with a leading slash but no later slash, is a literal
//! taken verbatim (leading slash included).

use vstd::prelude::*;
use vstd::string::StrSliceExecFns;

use crate::engine::{regex_accepts, CompiledRegex};
use crate::text::{
    contains_char, has_char, last_index_of, lemma_last_index_of_absent, lemma_last_index_of_at,
};
use crate::value::Matchable;

verus! {

/// The classifier's split of `s`: when `s` starts with `/` and its remainder
/// holds a further `/`, the pattern body before the last such `/` and the
/// flags after it; otherwise nothing, and `s` is a literal.
pub open spec fn spec_extract(s: Seq<char>) -> Option<(Seq<char>, Seq<char>)> {
    if s.len() > 0 && s[0] == '/' {
        let rest = s.subrange(1, s.len() as int);
        let j = last_index_of(rest, '/');
        if j >= 0 {
            Some((rest.subrange(0, j), rest.subrange(j + 1, rest.len() as int)))
        } else {
            None
        }
    } else {
        None
    }
}

/// Split `s` into a pattern body and a flags suffix when the slash-delimiter
/// grammar applies, and report nothing when `s` is a literal.
pub fn extract_regex<'a>(s: &'a str) -> (r: Option<(&'a str, &'a str)>)
    ensures
        r is None <==> spec_extract(s@) is None,
        r matches Some(p) ==> spec_extract(s@) == Some((p.0@, p.1@)),
{
    let n = s.unicode_len();
    if n == 0 || s.get_char(0) != '/' {
        return None;
    }
    // Scan for the last '/' after the leading one.
    let mut i: usize = n;
    while i > 1
        invariant
            1 <= i <= n,
            n == s@.len(),
            s@[0] == '/',
            forall|k: int| i <= k < n ==> s@[k] != '/',
        decreases i,
    {
        if s.get_char(i - 1) == '/' {
            let body = s.substring_char(1, i - 1);
            let flags = s.substring_char(i, n);
            proof {
                let rest = s@.subrange(1, s@.len() as int);
                assert(rest[i - 2] == s@[i - 1]);
                assert(forall|k: int| i - 2 < k < rest.len() ==> rest[k] == s@[k + 1] && s@[k
                    + 1] != '/');
                lemma_last_index_of_at(rest, '/', i - 2);
                assert(body@ =~= rest.subrange(0, i - 2));
                assert(flags@ =~= rest.subrange(i - 1, rest.len() as int));
                assert(spec_extract(s@) =~~= Some((body@, flags@)));
            }
            return Some((body, flags));
        }
        i -= 1;
    }
    proof {
        let rest = s@.subrange(1, n as int);
        assert(forall|k: int| 0 <= k < rest.len() ==> rest[k] == s@[k + 1] && s@[k + 1] != '/');
        lemma_last_index_of_absent(rest, '/');
    }
    None
}

/// The error reported when text that the grammar marks as a pattern fails to
/// compile: it carries the offending pattern source text.
#[derive(Debug, Clone)]
pub struct InvalidPattern {
    pattern: String,
}

impl InvalidPattern {
    /// The pattern source text that failed to compile.
    pub closed spec fn spec_pattern(&self) -> Seq<char> {
        self.pattern@
    }

    /// The pattern source text that failed to compile.
    pub fn pattern(&self) -> (r: &str)
        ensures
            r@ == self.spec_pattern(),
    {
        self.pattern.as_str()
    }

    /// A fixed human-readable description of the failure.
    pub fn message(&self) -> (r: &'static str)
        ensures
            r@ == "expected a valid regex pattern"@,
    {
        "expected a valid regex pattern"
    }

    pub(crate) fn for_pattern(pattern: &str) -> (r: InvalidPattern)
        ensures
            r.spec_pattern() == pattern@,
    {
        InvalidPattern { pattern: pattern.to_owned() }
    }
}

/// Compile `pattern` under the flags read from `flags`: `i`, `m` and `s`
/// toggle case-insensitive, multi-line and dot-matches-newline mode; any
/// other character in `flags` is ignored.
pub fn build_regex(pattern: &str, flags: &str) -> (r: Option<CompiledRegex>)
    ensures
        r is Some <==> regex_accepts(
            pattern@,
            has_char(flags@, 'i'),
            has_char(flags@, 'm'),
            has_char(flags@, 's'),
        ),
        r matches Some(re) ==> re.spec_source() == pattern@ && re.spec_case_insensitive()
            == has_char(flags@, 'i') && re.spec_multi_line() == has_char(flags@, 'm')
            && re.spec_dot_matches_new_line() == has_char(flags@, 's'),
{
    let case_insensitive = contains_char(flags, 'i');
    let multi_line = contains_char(flags, 'm');
    let dot_matches_new_line = contains_char(flags, 's');
    CompiledRegex::compile(pattern, case_insensitive, multi_line, dot_matches_new_line)
}

impl Matchable {
    /// Classify a raw string: with no slash-delimited pattern in it, the
    /// literal taken verbatim; otherwise the body compiled under the flags
    /// read from the suffix (`i`, `m`, `s`; other characters are ignored),
    /// or an [`InvalidPattern`] error when compilation fails.
    pub fn parse(s: &str) -> (r: Result<Matchable, InvalidPattern>)
        ensures
            spec_extract(s@) is None ==> (r matches Ok(m) && m matches Matchable::Str(t) && t@
                == s@),
            spec_extract(s@) matches Some(split) ==> {
                let ci = has_char(split.1, 'i');
                let ml = has_char(split.1, 'm');
                let dmn = has_char(split.1, 's');
                if regex_accepts(split.0, ci, ml, dmn) {
                    r matches Ok(m) && m matches Matchable::Regex(re) && re.spec_source()
                        == split.0 && re.spec_case_insensitive() == ci && re.spec_multi_line()
                        == ml && re.spec_dot_matches_new_line() == dmn
                } else {
                    r matches Err(e) && e.spec_pattern() == split.0
                }
            },
    {
        match extract_regex(s) {
            None => Ok(Matchable::Str(s.to_owned())),
            Some((body, flags)) => match build_regex(body, flags) {
                Some(re) => Ok(Matchable::Regex(re)),
                None => Err(InvalidPattern { pattern: body.to_owned() }),
            },
        }
    }
}

} // verus!
