//! The regular-expression engine as this crate sees it: an opaque compiled
//! set, the patterns it was built from, and the facts about matching and
//! compiling that the rest of the crate relies on without proof.

use vstd::prelude::*;

verus! {

/// `regex::RegexSet`, a compiled set of regular expressions. Nothing of its
/// inside is known here.
#[verifier::external_type_specification]
#[verifier::external_body]
pub struct ExRegexSet(regex::RegexSet);

/// The patterns a compiled set was built from, in the order given.
pub uninterp spec fn set_patterns(set: regex::RegexSet) -> Seq<Seq<char>>;

/// Whether a compiled set matches somewhere in `haystack`. What a set
/// answers is a matter of how it was built, not of its patterns alone.
pub uninterp spec fn set_matches(set: regex::RegexSet, haystack: Seq<char>) -> bool;

/// Whether the regular expression written as `pattern`, compiled with the
/// engine's default options, matches somewhere in `haystack`.
pub uninterp spec fn pattern_matches(pattern: Seq<char>, haystack: Seq<char>) -> bool;

/// What compiling `pattern` on its own reports: nothing when it compiles,
/// else the compiler's message.
pub uninterp spec fn pattern_fault(pattern: Seq<char>) -> Option<Seq<char>>;

/// What compiling `patterns` into one set reports: nothing when the set is
/// built, else the compiler's message.
pub uninterp spec fn set_fault(patterns: Seq<Seq<char>>) -> Option<Seq<char>>;

/// At least one of `patterns` matches somewhere in `haystack`.
pub open spec fn any_matches(patterns: Seq<Seq<char>>, haystack: Seq<char>) -> bool {
    exists|i: int| 0 <= i < patterns.len() && pattern_matches(#[trigger] patterns[i], haystack)
}

/// The set answers as its patterns do under the engine's default options:
/// it matches where one of them matches.
pub open spec fn plain(set: regex::RegexSet) -> bool {
    forall|haystack: Seq<char>| #[trigger]
        set_matches(set, haystack) == any_matches(set_patterns(set), haystack)
}

/// The texts of a list of strings.
pub open spec fn texts(strings: Seq<String>) -> Seq<Seq<char>> {
    strings.map_values(|s: String| s@)
}

/// `regex::RegexSet::empty`. Trusted: the set holds no pattern and matches
/// nothing.
pub assume_specification[ regex::RegexSet::empty ]() -> (set: regex::RegexSet)
    ensures
        set_patterns(set) == Seq::<Seq<char>>::empty(),
        forall|haystack: Seq<char>| !#[trigger] set_matches(set, haystack),
;

/// `Clone` for `regex::RegexSet`. Trusted: the copy holds the same patterns
/// and answers as the set it was made from.
pub assume_specification[ <regex::RegexSet as Clone>::clone ](set: &regex::RegexSet) -> (copy:
    regex::RegexSet)
    ensures
        set_patterns(copy) == set_patterns(*set),
        forall|haystack: Seq<char>| #[trigger]
            set_matches(copy, haystack) == set_matches(*set, haystack),
;

/// `regex::RegexSet::len`. Trusted: the number of patterns in the set.
pub assume_specification[ regex::RegexSet::len ](set: &regex::RegexSet) -> (n: usize)
    ensures
        n == set_patterns(*set).len(),
;

/// `regex::RegexSet::is_match`. Trusted: the set's own answer for the
/// haystack.
pub assume_specification[ regex::RegexSet::is_match ](
    set: &regex::RegexSet,
    haystack: &str,
) -> (found: bool)
    ensures
        found == set_matches(*set, haystack@),
;

/// Calls `regex::RegexSet::new`, which builds with the engine's default
/// options. Trusted: either the set is built, holds the given patterns in
/// their order and matches exactly where one of them matches, or the
/// compiler's message comes back; which of the two is a matter of the
/// patterns alone, and an empty list is always built.
#[verifier::external_body]
pub(crate) fn compile_set(patterns: &[String]) -> (built: Result<regex::RegexSet, String>)
    ensures
        match built {
            Ok(set) => {
                &&& set_fault(texts(patterns@)) is None
                &&& set_patterns(set) == texts(patterns@)
                &&& forall|haystack: Seq<char>| #[trigger]
                    set_matches(set, haystack) == (exists|i: int|
                        0 <= i < texts(patterns@).len() && pattern_matches(
                            #[trigger] texts(patterns@)[i],
                            haystack,
                        ))
            },
            Err(message) => set_fault(texts(patterns@)) == Some(message@),
        },
        patterns@.len() == 0 ==> built is Ok,
{
    match regex::RegexSet::new(patterns) {
        Ok(set) => Ok(set),
        Err(e) => Err(e.to_string()),
    }
}

/// Calls `regex::Regex::new`. Trusted: the compiler's message for a pattern
/// that does not compile, nothing for one that does; which of the two is a
/// matter of the pattern alone.
#[verifier::external_body]
pub(crate) fn compile_fault(pattern: &str) -> (fault: Option<String>)
    ensures
        match fault {
            Some(message) => pattern_fault(pattern@) == Some(message@),
            None => pattern_fault(pattern@) is None,
        },
{
    match regex::Regex::new(pattern) {
        Ok(_) => None,
        Err(e) => Some(e.to_string()),
    }
}

} // verus!
