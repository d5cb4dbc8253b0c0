//! The filter engine: an optional include list and an optional exclude list
//! of glob patterns combined into one membership decision for a candidate
//! value, or for its absence.
//!
//! The asymmetry is deliberate and exact: a missing value fails when an
//! include list is present, but is never excluded.

use vstd::prelude::*;

use crate::pattern::{glob_match, PatternWrapper};

verus! {

/// Whether at least one of `patterns` matches `value`.
pub open spec fn any_pattern_match(patterns: Seq<Seq<char>>, value: Seq<char>) -> bool {
    exists|i: int| 0 <= i < patterns.len() && glob_match(patterns[i], value)
}

/// The texts of a list of compiled patterns.
pub open spec fn pattern_texts(patterns: Seq<PatternWrapper>) -> Seq<Seq<char>> {
    patterns.map_values(|p: PatternWrapper| p@)
}

/// The view of an optional candidate value.
pub open spec fn opt_text(value: Option<&str>) -> Option<Seq<char>> {
    match value {
        Some(s) => Some(s@),
        None => None,
    }
}

/// Include/exclude glob pattern pair, evaluated fresh per candidate value.
pub struct FilterList {
    pub includes: Option<Vec<PatternWrapper>>,
    pub excludes: Option<Vec<PatternWrapper>>,
}

impl Default for FilterList {
    /// The default filter list has neither list and admits everything.
    fn default() -> (r: Self)
        ensures
            r.includes is None,
            r.excludes is None,
    {
        FilterList { includes: None, excludes: None }
    }
}

impl FilterList {
    /// The include check: no include list passes everything; an include
    /// list rejects an absent value; otherwise some include must match.
    pub open spec fn spec_included(&self, value: Option<Seq<char>>) -> bool {
        match self.includes {
            None => true,
            Some(includes) => match value {
                None => false,
                Some(v) => any_pattern_match(pattern_texts(includes@), v),
            },
        }
    }

    /// The exclude check: no exclude list excludes nothing; an absent value
    /// is never excluded; otherwise no exclude may match.
    pub open spec fn spec_excluded_ok(&self, value: Option<Seq<char>>) -> bool {
        match self.excludes {
            None => true,
            Some(excludes) => match value {
                None => true,
                Some(v) => !any_pattern_match(pattern_texts(excludes@), v),
            },
        }
    }

    /// Membership: the include check and the exclude check must both hold.
    pub open spec fn spec_contains(&self, value: Option<Seq<char>>) -> bool {
        self.spec_included(value) && self.spec_excluded_ok(value)
    }

    /// A filter list with neither an include nor an exclude list admits
    /// every value, including absence.
    pub proof fn lemma_default_contains_everything(&self, value: Option<Seq<char>>)
        requires
            self.includes is None,
            self.excludes is None,
        ensures
            self.spec_contains(value),
    {
    }

    fn any_matches(patterns: &Vec<PatternWrapper>, value: &str, as_path: bool) -> (r: bool)
        ensures
            r == any_pattern_match(pattern_texts(patterns@), value@),
    {
        let ghost texts = pattern_texts(patterns@);
        let mut i: usize = 0;
        while i < patterns.len()
            invariant
                0 <= i <= patterns.len(),
                texts == pattern_texts(patterns@),
                forall|j: int| 0 <= j < i ==> !glob_match(texts[j], value@),
            decreases patterns.len() - i,
        {
            let hit = if as_path {
                patterns[i].matches_path(value)
            } else {
                patterns[i].matches_str(value)
            };
            assert(texts[i as int] == patterns@[i as int]@);
            if hit {
                return true;
            }
            i += 1;
        }
        false
    }

    fn contains_impl(&self, value: Option<&str>, as_path: bool) -> (r: bool)
        ensures
            r == self.spec_contains(opt_text(value)),
    {
        let included = match (&self.includes, value) {
            (None, _) => true,
            (Some(_), None) => false,
            (Some(includes), Some(v)) => Self::any_matches(includes, v, as_path),
        };
        let excluded_ok = match (&self.excludes, value) {
            (None, _) => true,
            (Some(_), None) => true,
            (Some(excludes), Some(v)) => !Self::any_matches(excludes, v, as_path),
        };
        included && excluded_ok
    }

    /// Membership of a string-shaped value (or of absence, as `None`).
    pub fn contains_str(&self, value: Option<&str>) -> (r: bool)
        ensures
            r == self.spec_contains(opt_text(value)),
    {
        self.contains_impl(value, false)
    }

    /// Membership of a path-shaped value, given by its string rendering.
    /// The contract is the same as for [`Self::contains_str`]: path and
    /// string matching agree on the rendering.
    pub fn contains_path(&self, value: Option<&str>) -> (r: bool)
        ensures
            r == self.spec_contains(opt_text(value)),
    {
        self.contains_impl(value, true)
    }

    /// Decides membership both ways, as a string and as a path, and returns
    /// the shared answer; the two agree on every input.
    pub fn contains_test(&self, value: Option<&str>) -> (r: bool)
        ensures
            r == self.spec_contains(opt_text(value)),
    {
        let as_str = self.contains_str(value);
        let as_path = self.contains_path(value);
        assert(as_str == as_path);
        as_str
    }
}

} // verus!
