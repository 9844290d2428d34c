//! The matchable value type: either an exact literal string or a compiled
//! pattern, plus the pattern-only wrapper type.

use vstd::prelude::*;
use vstd::string::StrSliceExecFns;

use crate::classify::InvalidPattern;
use crate::engine::{regex_accepts, regex_match, CompiledRegex};
use crate::text::str_eq;

verus! {

/// A value to match text against: an exact literal string, or a compiled
/// regular expression.
#[derive(Debug, Clone)]
pub enum Matchable {
    Str(String),
    Regex(CompiledRegex),
}

/// What it means for a `Matchable` to match `text`: a literal matches exactly
/// its own text, a pattern matches when the regex engine finds it anywhere in
/// `text`.
pub open spec fn spec_is_match(m: &Matchable, text: Seq<char>) -> bool {
    match m {
        Matchable::Str(s) => s@ == text,
        Matchable::Regex(re) => regex_match(
            re.spec_source(),
            re.spec_case_insensitive(),
            re.spec_multi_line(),
            re.spec_dot_matches_new_line(),
            text,
        ),
    }
}

/// The string a `Matchable` renders as: the literal text, or the pattern
/// source text (without delimiters or flags).
pub open spec fn spec_as_str(m: &Matchable) -> Seq<char> {
    match m {
        Matchable::Str(s) => s@,
        Matchable::Regex(re) => re.spec_source(),
    }
}

/// Variant-aware equality: literals compare by their text, patterns by their
/// source text alone, and values of different variants are never equal.
pub open spec fn spec_eq(a: &Matchable, b: &Matchable) -> bool {
    match (a, b) {
        (Matchable::Str(x), Matchable::Str(y)) => x@ == y@,
        (Matchable::Regex(x), Matchable::Regex(y)) => x.spec_source() == y.spec_source(),
        _ => false,
    }
}

impl Matchable {
    /// Check whether a piece of text matches this value: string equality for a
    /// literal, a substring pattern match for a compiled pattern.
    pub fn is_match(&self, text: &str) -> (r: bool)
        ensures
            r == spec_is_match(self, text@),
    {
        match self {
            Matchable::Str(s) => str_eq(s.as_str(), text),
            Matchable::Regex(re) => re.is_match(text),
        }
    }

    /// The string representation: the literal text, or the original pattern
    /// source text.
    pub fn as_str(&self) -> (r: &str)
        ensures
            r@ == spec_as_str(self),
    {
        match self {
            Matchable::Str(s) => s.as_str(),
            Matchable::Regex(re) => re.as_str(),
        }
    }
}

impl PartialEq for Matchable {
    fn eq(&self, other: &Matchable) -> (r: bool) {
        match (self, other) {
            (Matchable::Str(a), Matchable::Str(b)) => str_eq(a.as_str(), b.as_str()),
            (Matchable::Regex(a), Matchable::Regex(b)) => str_eq(a.as_str(), b.as_str()),
            _ => false,
        }
    }
}

impl vstd::std_specs::cmp::PartialEqSpecImpl for Matchable {
    open spec fn obeys_eq_spec() -> bool {
        true
    }

    open spec fn eq_spec(&self, other: &Matchable) -> bool {
        spec_eq(self, other)
    }
}

impl Eq for Matchable {
}

impl Default for Matchable {
    /// The default value is the empty literal.
    fn default() -> (r: Matchable)
        ensures
            r matches Matchable::Str(t) && t@ == Seq::<char>::empty(),
    {
        Matchable::Str(String::new())
    }
}

/// A wrapper holding one compiled pattern: unlike [`Matchable`], the whole
/// input is always compiled as a pattern, with no literal fallback and no
/// flag parsing.
#[derive(Debug, Clone)]
pub struct RegexOnly {
    pub(crate) regex: CompiledRegex,
}

impl RegexOnly {
    /// The pattern source text of the wrapped compiled pattern.
    pub closed spec fn spec_source(&self) -> Seq<char> {
        self.regex.spec_source()
    }

    /// The wrapped pattern is always compiled with every flag off.
    pub closed spec fn flags_off(&self) -> bool {
        !self.regex.spec_case_insensitive() && !self.regex.spec_multi_line()
            && !self.regex.spec_dot_matches_new_line()
    }

    /// Compile the whole raw string as a pattern, with every flag off and no
    /// literal fallback, or report an [`InvalidPattern`] error when
    /// compilation fails.
    pub fn parse(s: &str) -> (r: Result<RegexOnly, InvalidPattern>)
        ensures
            regex_accepts(s@, false, false, false) ==> (r matches Ok(ro) && ro.spec_source()
                == s@ && ro.flags_off()),
            !regex_accepts(s@, false, false, false) ==> (r matches Err(e) && e.spec_pattern()
                == s@),
    {
        match CompiledRegex::compile(s, false, false, false) {
            Some(re) => Ok(RegexOnly { regex: re }),
            None => Err(InvalidPattern::for_pattern(s)),
        }
    }

    /// Check whether the wrapped pattern matches anywhere in `text`.
    pub fn is_match(&self, text: &str) -> (r: bool)
        ensures
            self.flags_off() ==> r == regex_match(self.spec_source(), false, false, false, text@),
    {
        self.regex.is_match(text)
    }

    /// The original (uncompiled) pattern source text.
    pub fn as_str(&self) -> (r: &str)
        ensures
            r@ == self.spec_source(),
    {
        self.regex.as_str()
    }
}

} // verus!
