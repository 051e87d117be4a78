//! Counting the occurrences of a literal byte string or a regular expression.
use vstd::prelude::*;

verus! {

#[verifier::external_type_specification]
#[verifier::external_body]
pub struct ExRegex(regex::bytes::Regex);

#[verifier::external_type_specification]
#[verifier::external_body]
pub struct ExRegexError(regex::Error);

/// Whether `pattern` compiles as a regular expression.
pub uninterp spec fn regex_accepts(pattern: Seq<char>) -> bool;

/// The number of non-overlapping matches of the regular expression `pattern`
/// that a left-to-right search finds in `haystack`.
pub uninterp spec fn regex_match_count(pattern: Seq<char>, haystack: Seq<u8>) -> nat;

/// The number of non-overlapping occurrences of `needle` in `haystack` found by
/// a left-to-right scan that moves past each occurrence it counts. An empty
/// needle occurs at every position, the end included.
pub open spec fn literal_count(haystack: Seq<u8>, needle: Seq<u8>) -> nat
    decreases haystack.len(),
{
    if needle.len() == 0 {
        haystack.len() + 1
    } else if haystack.len() < needle.len() {
        0
    } else if haystack.take(needle.len() as int) == needle {
        1 + literal_count(haystack.skip(needle.len() as int), needle)
    } else {
        literal_count(haystack.skip(1), needle)
    }
}

/// `needle` starts at position `i` of `haystack`.
pub open spec fn occurs_at(haystack: Seq<u8>, needle: Seq<u8>, i: int) -> bool {
    0 <= i && i + needle.len() <= haystack.len() && haystack.subrange(i, i + needle.len())
        == needle
}

/// Relies on memchr::memmem::find_iter: it yields the start of each
/// non-overlapping occurrence, searching on after the end of the last one.
#[verifier::external_body]
fn memmem_count(haystack: &[u8], needle: &[u8]) -> (r: usize)
    requires
        needle@.len() > 0,
    ensures
        r == literal_count(haystack@, needle@),
{
    memchr::memmem::find_iter(haystack, needle).count()
}

/// Relies on regex::bytes::Regex::new: compiles the pattern, or says why it cannot.
#[verifier::external_body]
fn compile_regex(pattern: &str) -> (r: Result<regex::bytes::Regex, regex::Error>)
    ensures
        r is Ok <==> regex_accepts(pattern@),
{
    regex::bytes::Regex::new(pattern)
}

/// A compiled regular expression together with the text it was compiled from.
pub struct Pattern {
    source: String,
    compiled: regex::bytes::Regex,
}

impl Pattern {
    /// The text this pattern was compiled from.
    pub closed spec fn source_text(&self) -> Seq<char> {
        self.source@
    }

    /// Compiles `source`.
    pub fn new(source: &str) -> (r: Result<Pattern, regex::Error>)
        ensures
            r is Ok <==> regex_accepts(source@),
            r matches Ok(p) ==> p.source_text() == source@,
    {
        match compile_regex(source) {
            Ok(compiled) => Ok(Pattern { source: source.to_string(), compiled }),
            Err(e) => Err(e),
        }
    }

    /// The text this pattern was compiled from.
    pub fn source(&self) -> (r: &String)
        ensures
            r@ == self.source_text(),
    {
        &self.source
    }

    /// Relies on regex::bytes::Regex::find_iter: it yields each non-overlapping
    /// match, searching from left to right. The compiled field was built from
    /// the source field by `Pattern::new`, the only place that builds a pattern.
    #[verifier::external_body]
    fn find_count(&self, haystack: &[u8]) -> (r: usize)
        ensures
            r == regex_match_count(self.source@, haystack@),
    {
        self.compiled.find_iter(haystack).count()
    }
}

/// What a condition on an output stream searches for.
pub enum Matcher {
    /// A literal byte string; it must not be empty.
    Literal(Vec<u8>),
    /// A regular expression.
    RegExp(Pattern),
}

/// Why a matcher cannot be built.
pub enum MatcherError {
    /// A literal pattern was empty.
    EmptyPattern,
    /// A regular expression did not compile.
    InvalidPattern(regex::Error),
}

impl Matcher {
    /// A literal matcher holds a non-empty byte string.
    pub open spec fn wf(&self) -> bool {
        match self {
            Matcher::Literal(l) => l@.len() > 0,
            Matcher::RegExp(_) => true,
        }
    }

    /// The number of matches of this matcher in `haystack`.
    pub open spec fn count(&self, haystack: Seq<u8>) -> nat {
        match self {
            Matcher::Literal(l) => literal_count(haystack, l@),
            Matcher::RegExp(p) => regex_match_count(p.source_text(), haystack),
        }
    }

    /// A matcher for the literal byte string `bytes`, refused when it is empty.
    pub fn literal(bytes: Vec<u8>) -> (r: Result<Matcher, MatcherError>)
        ensures
            bytes@.len() == 0 <==> r matches Err(MatcherError::EmptyPattern),
            bytes@.len() > 0 ==> (r matches Ok(Matcher::Literal(l)) && l@ == bytes@),
    {
        if bytes.len() == 0 {
            Err(MatcherError::EmptyPattern)
        } else {
            Ok(Matcher::Literal(bytes))
        }
    }

    /// A matcher for the regular expression `pattern`, refused when it does not compile.
    pub fn regex(pattern: &str) -> (r: Result<Matcher, MatcherError>)
        ensures
            regex_accepts(pattern@) <==> r is Ok,
            !regex_accepts(pattern@) ==> r matches Err(MatcherError::InvalidPattern(_)),
            r matches Ok(m) ==> (m matches Matcher::RegExp(p) && p.source_text() == pattern@),
    {
        match Pattern::new(pattern) {
            Ok(p) => Ok(Matcher::RegExp(p)),
            Err(e) => Err(MatcherError::InvalidPattern(e)),
        }
    }

    /// Counts the matches of this matcher in `haystack`.
    pub fn count_matches(&self, haystack: &[u8]) -> (r: usize)
        requires
            self.wf(),
        ensures
            r == self.count(haystack@),
    {
        match self {
            Matcher::Literal(l) => memmem_count(haystack, l.as_slice()),
            Matcher::RegExp(p) => p.find_count(haystack),
        }
    }
}

/// A needle longer than the haystack, or one that occurs nowhere in it, is
/// counted zero times.
pub proof fn lemma_absent_literal_counts_zero(haystack: Seq<u8>, needle: Seq<u8>)
    requires
        needle.len() > 0,
        haystack.len() < needle.len() || forall|i: int| !occurs_at(haystack, needle, i),
    ensures
        literal_count(haystack, needle) == 0,
    decreases haystack.len(),
{
    if haystack.len() >= needle.len() {
        assert(haystack.take(needle.len() as int) =~= haystack.subrange(0, needle.len() as int));
        assert(!occurs_at(haystack, needle, 0));
        let rest = haystack.skip(1);
        if rest.len() >= needle.len() {
            assert forall|i: int| !occurs_at(rest, needle, i) by {
                if occurs_at(rest, needle, i) {
                    assert(rest.subrange(i, i + needle.len()) =~= haystack.subrange(
                        i + 1,
                        i + 1 + needle.len(),
                    ));
                    assert(occurs_at(haystack, needle, i + 1));
                }
            }
        }
        lemma_absent_literal_counts_zero(rest, needle);
    }
}

} // verus!
