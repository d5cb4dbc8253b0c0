//! Glob patterns, compiled once at configuration load and matched against
//! string- or path-shaped values with identical semantics.
//!
//! A path-shaped value is modeled by its string rendering: the library's
//! path entry points take that rendering, and the underlying matcher treats
//! it as the path it names.

use vstd::prelude::*;

verus! {

#[verifier::external_type_specification]
#[verifier::external_body]
pub struct ExPattern(glob::Pattern);

/// Whether `glob::Pattern::new` accepts the pattern text `s`: compilation
/// succeeds or fails on the text alone.
pub uninterp spec fn glob_ok(s: Seq<char>) -> bool;

/// What `glob::Pattern::matches` returns for the pattern compiled from
/// `pattern` applied to `value`: a whole-value glob match, a function of
/// the two texts alone.
pub uninterp spec fn glob_match(pattern: Seq<char>, value: Seq<char>) -> bool;

/// Invalid glob syntax, reported at configuration-load time.
#[derive(Clone, Copy, Debug, PartialEq, Eq, Structural)]
pub struct PatternError {
    /// Approximate character index at which compilation failed.
    pub pos: usize,
}

/// A compiled glob expression together with the text it was compiled from.
///
/// The fields are private: every value is built by [`PatternWrapper::new`], so
/// `compiled` is always the compilation of `source`.
#[derive(Debug)]
pub struct PatternWrapper {
    source: String,
    compiled: glob::Pattern,
}

impl View for PatternWrapper {
    type V = Seq<char>;

    closed spec fn view(&self) -> Seq<char> {
        self.source@
    }
}

impl PatternWrapper {
    /// Relies on glob::Pattern::new: compilation succeeds exactly on valid
    /// glob syntax, a property of the pattern text alone; on failure the
    /// error's position field is carried over.
    #[verifier::external_body]
    pub fn new(source: &str) -> (r: Result<PatternWrapper, PatternError>)
        ensures
            r is Ok <==> glob_ok(source@),
            r is Ok ==> r->Ok_0@ == source@,
    {
        match glob::Pattern::new(source) {
            Ok(compiled) => Ok(PatternWrapper { source: source.to_owned(), compiled }),
            Err(e) => Err(PatternError { pos: e.pos }),
        }
    }

    /// Relies on glob::Pattern::matches: the result is a whole-value match
    /// determined by the pattern text and the candidate alone. `compiled`
    /// is the compilation of `source` (see [`PatternWrapper::new`]).
    #[verifier::external_body]
    pub fn matches_str(&self, value: &str) -> (r: bool)
        ensures
            r == glob_match(self@, value@),
    {
        self.compiled.matches(value)
    }

    /// Relies on glob::Pattern::matches_path, which renders the path with
    /// `Path::to_str` and matches the rendering as a string; a path built
    /// from a UTF-8 string renders back as that same string, so the result
    /// equals string matching on the rendering.
    #[verifier::external_body]
    pub fn matches_path(&self, path: &str) -> (r: bool)
        ensures
            r == glob_match(self@, path@),
    {
        self.compiled.matches_path(std::path::Path::new(path))
    }

    /// The text this pattern was compiled from.
    pub fn as_str(&self) -> (r: &str)
        ensures
            r@ == self@,
    {
        self.source.as_str()
    }
}

} // verus!
