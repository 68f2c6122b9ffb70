//! The ignore filter: glob patterns that keep paths out of an archive.

use vstd::prelude::*;
use crate::error::{Error, ErrorView};
use crate::text::{count_char, occurrences};

verus! {

/// The most opening braces that the filter accepts in one pattern. `globset`
/// works through nested alternates by recursion, one level for each brace
/// that is open; the bound keeps that recursion shallow whatever the braces
/// mean.
pub const MAX_BRACES: usize = 256;

/// The number of opening braces in `pattern`.
pub open spec fn braces(pattern: Seq<char>) -> nat {
    occurrences(pattern, '{', pattern.len() as int)
}

/// Whether `globset` compiles `pattern`: whether it builds the glob, with
/// case-insensitive matching and the other options left at their defaults,
/// and then builds the set that holds this glob alone. On the platform that
/// the library is built for.
pub uninterp spec fn glob_compiles(pattern: Seq<char>) -> bool;

/// Whether the `globset` set that holds the case-insensitive glob of
/// `pattern` alone matches `path`, on the platform that the library is built
/// for.
pub uninterp spec fn glob_matches(pattern: Seq<char>, path: Seq<char>) -> bool;

/// Calls `globset::GlobBuilder::build` on `pattern` with case-insensitive
/// matching switched on, then `globset::GlobSetBuilder::build` on the set
/// that holds the glob alone, and reports whether both gave a result. The
/// first parses the pattern, the second compiles its regular expression and
/// hands back the error where that fails; neither touches anything else, so
/// the answer depends on the pattern alone. The pattern must not hold more
/// opening braces than [`MAX_BRACES`].
#[verifier::external_body]
fn glob_builds(pattern: &str) -> (ok: bool)
    requires
        braces(pattern@) <= MAX_BRACES,
    ensures
        ok == glob_compiles(pattern@),
{
    match globset::GlobBuilder::new(pattern).case_insensitive(true).build() {
        Ok(glob) => globset::GlobSetBuilder::new().add(glob).build().is_ok(),
        Err(_) => false,
    }
}

/// Builds the case-insensitive glob for `pattern` and the set that holds it
/// alone, as [`glob_builds`] does, and asks `globset::GlobSet::is_match`
/// about `path`. A case-insensitive glob is always matched by its compiled
/// regular expression, which is run over the bytes of the path, so the answer
/// depends on the pattern and the path alone. The pattern has to be one that
/// compiles, with no more opening braces than [`MAX_BRACES`].
#[verifier::external_body]
fn glob_is_match(pattern: &str, path: &str) -> (hit: bool)
    requires
        braces(pattern@) <= MAX_BRACES,
        glob_compiles(pattern@),
    ensures
        hit == glob_matches(pattern@, path@),
{
    match globset::GlobBuilder::new(pattern).case_insensitive(true).build() {
        Ok(glob) => match globset::GlobSetBuilder::new().add(glob).build() {
            Ok(set) => set.is_match(path),
            Err(_) => false,
        },
        Err(_) => false,
    }
}

/// A pattern that the filter accepts: one with no more opening braces than
/// [`MAX_BRACES`] that compiles.
pub open spec fn acceptable(pattern: Seq<char>) -> bool {
    braces(pattern) <= MAX_BRACES && glob_compiles(pattern)
}

/// The position of the first pattern at or after `i` that is not acceptable,
/// or the number of patterns if all of them are.
pub open spec fn first_rejected(patterns: Seq<Seq<char>>, i: int) -> int
    decreases patterns.len() - i,
{
    if i >= patterns.len() {
        patterns.len() as int
    } else if !acceptable(patterns[i]) {
        i
    } else {
        first_rejected(patterns, i + 1)
    }
}

/// At least one of the patterns matches `path`.
pub open spec fn excludes(patterns: Seq<Seq<char>>, path: Seq<char>) -> bool {
    exists|i: int| 0 <= i < patterns.len() && glob_matches(#[trigger] patterns[i], path)
}

/// What [`GlobFilter::compile`] owes for a list of patterns: the filter over
/// all of them, or the first pattern that is not acceptable.
pub open spec fn compile_outcome(patterns: Seq<Seq<char>>) -> Result<Seq<Seq<char>>, ErrorView> {
    let k = first_rejected(patterns, 0);
    if k < patterns.len() {
        Err(ErrorView::InvalidPattern(patterns[k]))
    } else {
        Ok(patterns)
    }
}

/// A set of ignore patterns, each one checked to be a valid glob.
///
/// The filter keeps the patterns as text; a pattern is compiled when a path is
/// held against it.
#[derive(Debug, PartialEq, Eq)]
pub struct GlobFilter {
    patterns: Vec<String>,
}

impl GlobFilter {
    #[verifier::type_invariant]
    spec fn checked(self) -> bool {
        forall|i: int| 0 <= i < self.patterns.len() ==> acceptable(#[trigger] self.patterns[i]@)
    }

    /// The patterns of the filter, in the order given.
    pub closed spec fn patterns(&self) -> Seq<Seq<char>> {
        self.patterns.deep_view()
    }

    /// Checks every pattern and builds the filter. The first pattern that
    /// does not compile, or holds too many braces to be tried, is reported,
    /// and no filter is built.
    pub fn compile(patterns: &Vec<String>) -> (r: Result<GlobFilter, Error>)
        ensures
            match r {
                Ok(f) => compile_outcome(patterns.deep_view()) == Ok::<Seq<Seq<char>>, ErrorView>(
                    f.patterns(),
                ),
                Err(e) => compile_outcome(patterns.deep_view()) == Err::<Seq<Seq<char>>, ErrorView>(
                    e@,
                ),
            },
    {
        let ghost all = patterns.deep_view();
        let mut kept: Vec<String> = Vec::new();
        let mut i: usize = 0;
        while i < patterns.len()
            invariant
                i <= patterns.len(),
                all == patterns.deep_view(),
                kept.len() == i,
                forall|j: int| 0 <= j < i ==> kept[j]@ == patterns[j]@,
                forall|j: int| 0 <= j < i ==> acceptable(#[trigger] kept[j]@),
                first_rejected(all, i as int) == first_rejected(all, 0),
            decreases patterns.len() - i,
        {
            let pattern = &patterns[i];
            assert(all[i as int] == pattern@);
            if count_char(pattern.as_str(), '{') > MAX_BRACES || !glob_builds(pattern.as_str()) {
                return Err(Error::InvalidPattern(pattern.clone()));
            }
            kept.push(pattern.clone());
            i += 1;
        }
        assert(kept.deep_view() =~= all);
        Ok(GlobFilter { patterns: kept })
    }

    /// Decides whether `path` is kept out: whether at least one pattern
    /// matches its string form.
    pub fn is_excluded(&self, path: &str) -> (b: bool)
        ensures
            b == excludes(self.patterns(), path@),
    {
        proof {
            use_type_invariant(self);
        }
        let mut i: usize = 0;
        while i < self.patterns.len()
            invariant
                i <= self.patterns.len(),
                forall|j: int|
                    0 <= j < self.patterns.len() ==> acceptable(#[trigger] self.patterns[j]@),
                forall|j: int| 0 <= j < i ==> !glob_matches(#[trigger] self.patterns()[j], path@),
            decreases self.patterns.len() - i,
        {
            assert(self.patterns()[i as int] == self.patterns[i as int]@);
            if glob_is_match(self.patterns[i].as_str(), path) {
                return true;
            }
            i += 1;
        }
        false
    }
}

} // verus!
