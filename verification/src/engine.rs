//! The compiled-pattern type: a pattern source text, the three flag settings
//! it was compiled under, and the compiled pattern object of the regex engine.
//!
//! Everything the rest of the library states about a compiled pattern is said
//! over the source text and the flags; the engine's behaviour on them is named
//! by two uninterpreted functions, `regex_accepts` for whether compilation
//! succeeds and `regex_match` for whether the pattern matches a text.

use vstd::prelude::*;

verus! {

#[verifier::external_type_specification]
#[verifier::external_body]
pub struct ExRegex(regex::Regex);

/// Relies on regex::Regex's derived Clone; nothing is claimed of the clone.
pub assume_specification[ <regex::Regex as Clone>::clone ](r: &regex::Regex) -> regex::Regex;

/// Whether the regex engine accepts `pattern` as a valid pattern when it is
/// compiled with the given flag settings.
pub uninterp spec fn regex_accepts(
    pattern: Seq<char>,
    case_insensitive: bool,
    multi_line: bool,
    dot_matches_new_line: bool,
) -> bool;

/// Whether `pattern`, compiled with the given flag settings, matches anywhere
/// within `text`.
pub uninterp spec fn regex_match(
    pattern: Seq<char>,
    case_insensitive: bool,
    multi_line: bool,
    dot_matches_new_line: bool,
    text: Seq<char>,
) -> bool;

/// A compiled pattern, kept beside the source text and the flag settings it
/// was compiled from. Values are only ever built by [`CompiledRegex::compile`],
/// so the inner pattern object is always the recorded source compiled under
/// the recorded flags.
#[derive(Debug, Clone)]
pub struct CompiledRegex {
    source: String,
    case_insensitive: bool,
    multi_line: bool,
    dot_matches_new_line: bool,
    inner: regex::Regex,
}

impl CompiledRegex {
    /// The pattern source text this value was compiled from.
    pub closed spec fn spec_source(&self) -> Seq<char> {
        self.source@
    }

    /// Whether the pattern was compiled with case-insensitive matching.
    pub closed spec fn spec_case_insensitive(&self) -> bool {
        self.case_insensitive
    }

    /// Whether the pattern was compiled with multi-line mode.
    pub closed spec fn spec_multi_line(&self) -> bool {
        self.multi_line
    }

    /// Whether the pattern was compiled with dot-matches-newline mode.
    pub closed spec fn spec_dot_matches_new_line(&self) -> bool {
        self.dot_matches_new_line
    }

    /// Relies on regex::RegexBuilder (new, case_insensitive, multi_line,
    /// dot_matches_new_line, build): whether compilation succeeds is a
    /// function of the pattern text and the flag settings alone, and a
    /// successful build yields the pattern compiled under exactly those
    /// settings.
    #[verifier::external_body]
    pub fn compile(
        source: &str,
        case_insensitive: bool,
        multi_line: bool,
        dot_matches_new_line: bool,
    ) -> (r: Option<CompiledRegex>)
        ensures
            r is Some <==> regex_accepts(source@, case_insensitive, multi_line, dot_matches_new_line),
            r matches Some(re) ==> re.spec_source() == source@
                && re.spec_case_insensitive() == case_insensitive
                && re.spec_multi_line() == multi_line
                && re.spec_dot_matches_new_line() == dot_matches_new_line,
    {
        let mut builder = regex::RegexBuilder::new(source);
        builder.case_insensitive(case_insensitive);
        builder.multi_line(multi_line);
        builder.dot_matches_new_line(dot_matches_new_line);
        match builder.build() {
            Ok(inner) => Some(CompiledRegex {
                source: source.to_owned(),
                case_insensitive,
                multi_line,
                dot_matches_new_line,
                inner,
            }),
            Err(_) => None,
        }
    }

    /// Relies on regex::Regex::is_match: whether the compiled pattern matches
    /// anywhere in `text` is a function of the pattern text, the flag settings
    /// and `text` alone.
    #[verifier::external_body]
    pub fn is_match(&self, text: &str) -> (r: bool)
        ensures
            r == regex_match(
                self.spec_source(),
                self.spec_case_insensitive(),
                self.spec_multi_line(),
                self.spec_dot_matches_new_line(),
                text@,
            ),
    {
        self.inner.is_match(text)
    }

    /// The original (uncompiled) pattern source text.
    pub fn as_str(&self) -> (r: &str)
        ensures
            r@ == self.spec_source(),
    {
        self.source.as_str()
    }
}

} // verus!
