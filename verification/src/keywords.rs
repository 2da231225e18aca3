//! Case-insensitive multi-pattern keyword matching.
//!
//! A fixed list of Polish and English substrings marks links worth
//! following. The text is lowercased (the patterns already are) and searched
//! in a single pass by an Aho–Corasick automaton.

use vstd::prelude::*;

use crate::text::contains_seq;

verus! {

/// The fixed keyword list; all patterns are already lowercase.
pub open spec fn keyword_list() -> Seq<Seq<char>> {
    seq![
        "plan"@,
        "harmonogram"@,
        "tutaj"@,
        "kliknij"@,
        "naciśnij"@,
        "nacisnij"@,
        "podzial"@,
        "podział"@,
        "rozkład"@,
        "rozklad"@,
        "timetable"@,
        "lekcj"@,
        "schedule"@,
    ]
}

/// What str::to_lowercase returns: it depends on the characters alone.
pub uninterp spec fn lower_of(s: Seq<char>) -> Seq<char>;

/// Relies on str::to_lowercase: the Unicode lowercase form of the string.
#[verifier::external_body]
fn to_lowercase(s: &str) -> (r: String)
    ensures
        r@ == lower_of(s@),
{
    s.to_lowercase()
}

/// Some keyword occurs in the already-lowercased text.
pub open spec fn has_keyword_in(lowered: Seq<char>) -> bool {
    exists|i: int|
        0 <= i < keyword_list().len() && contains_seq(lowered, #[trigger] keyword_list()[i])
}

/// The keyword heuristic: some keyword occurs in the text, matched
/// case-insensitively by lowercasing the text.
pub open spec fn keyword_hit(s: Seq<char>) -> bool {
    has_keyword_in(lower_of(s))
}

#[verifier::external_type_specification]
#[verifier::external_body]
pub struct ExAhoCorasick(aho_corasick::AhoCorasick);

/// The patterns an Aho–Corasick searcher was built from.
pub uninterp spec fn ac_patterns(ac: aho_corasick::AhoCorasick) -> Seq<Seq<char>>;

/// Whether aho_corasick::AhoCorasick::new accepts a pattern list: it
/// fails only on limits of the automaton's size, so acceptance depends
/// on the patterns alone.
pub uninterp spec fn ac_build_ok(patterns: Seq<Seq<char>>) -> bool;

/// Relies on aho_corasick::AhoCorasick::new: the searcher it builds holds
/// exactly the given patterns, and whether one is built depends on the
/// patterns alone.
#[verifier::external_body]
fn ac_build(patterns: &Vec<String>) -> (r: Option<aho_corasick::AhoCorasick>)
    ensures
        r is Some <==> ac_build_ok(patterns.deep_view()),
        r matches Some(ac) ==> ac_patterns(ac) == patterns.deep_view(),
{
    aho_corasick::AhoCorasick::new(patterns).ok()
}

/// Relies on aho_corasick::AhoCorasick::is_match: true if and only if some
/// pattern of the searcher occurs as a substring of the haystack. The
/// search runs over bytes; a whole valid-UTF-8 pattern occurs among valid
/// UTF-8 bytes exactly where it occurs among the characters.
#[verifier::external_body]
fn ac_is_match(ac: &aho_corasick::AhoCorasick, hay: &str) -> (r: bool)
    ensures
        r == (exists|i: int|
            0 <= i < ac_patterns(*ac).len() && contains_seq(hay@, #[trigger] ac_patterns(*ac)[i])),
{
    ac.is_match(hay)
}

/// A process-lifetime searcher over the fixed keyword list; built once and
/// shared read-only.
pub struct KeywordMatcher {
    searcher: aho_corasick::AhoCorasick,
}

impl KeywordMatcher {
    pub closed spec fn wf(self) -> bool {
        ac_patterns(self.searcher) == keyword_list()
    }

    /// Build the searcher over the keyword list: it comes back exactly
    /// when the automaton for these patterns can be constructed.
    pub fn new() -> (r: Option<KeywordMatcher>)
        ensures
            r is Some <==> ac_build_ok(keyword_list()),
            r matches Some(m) ==> m.wf(),
    {
        let mut pats: Vec<String> = Vec::new();
        pats.push("plan".to_owned());
        pats.push("harmonogram".to_owned());
        pats.push("tutaj".to_owned());
        pats.push("kliknij".to_owned());
        pats.push("naciśnij".to_owned());
        pats.push("nacisnij".to_owned());
        pats.push("podzial".to_owned());
        pats.push("podział".to_owned());
        pats.push("rozkład".to_owned());
        pats.push("rozklad".to_owned());
        pats.push("timetable".to_owned());
        pats.push("lekcj".to_owned());
        pats.push("schedule".to_owned());
        proof {
            assert(pats.deep_view() =~= keyword_list());
        }
        match ac_build(&pats) {
            Some(searcher) => Some(KeywordMatcher { searcher }),
            None => None,
        }
    }

    /// True iff some keyword occurs in the text, case-insensitively; one
    /// pass over the lowercased input.
    pub fn contains_keyword(&self, s: &str) -> (r: bool)
        requires
            self.wf(),
        ensures
            r == keyword_hit(s@),
    {
        let lowered = to_lowercase(s);
        ac_is_match(&self.searcher, lowered.as_str())
    }
}

} // verus!
