//! Deciding which discovered projects are in scope.
use crate::project::ProjectDescriptor;
use vstd::prelude::*;

verus! {

/// Whether `pattern` is a regular expression that the regex engine accepts.
pub uninterp spec fn pattern_valid(pattern: Seq<char>) -> bool;

/// Whether the regular expression `pattern` matches somewhere in `text`.
pub uninterp spec fn pattern_matches(pattern: Seq<char>, text: Seq<char>) -> bool;

/// Relies on `regex::Regex::new`: it fails exactly on a pattern that the
/// engine refuses, and that depends on the pattern alone.
#[verifier::external_body]
fn pattern_compiles(pattern: &str) -> (r: bool)
    ensures
        r == pattern_valid(pattern@),
{
    regex::Regex::new(pattern).is_ok()
}

/// Relies on `regex::Regex::is_match` on the compiled `pattern`: whether the
/// expression matches anywhere in `text`, a function of both alone.
#[verifier::external_body]
fn pattern_is_match(pattern: &str, text: &str) -> (r: bool)
    requires
        pattern_valid(pattern@),
    ensures
        r == pattern_matches(pattern@, text@),
{
    match regex::Regex::new(pattern) {
        Ok(re) => re.is_match(text),
        Err(_) => false,
    }
}

/// A choice between keeping the projects that some pattern matches and
/// dropping them; one value cannot be both.
#[derive(Debug, Clone, PartialEq, Eq)]
pub enum FilterPatterns {
    Include(Vec<String>),
    Exclude(Vec<String>),
}

/// Some pattern of `ps` matches `text`.
pub open spec fn some_match(ps: Seq<String>, text: Seq<char>) -> bool {
    exists|i: int| 0 <= i < ps.len() && pattern_matches(#[trigger] ps[i]@, text)
}

/// Every pattern of `ps` is accepted by the regex engine.
pub open spec fn all_valid(ps: Seq<String>) -> bool {
    forall|i: int| 0 <= i < ps.len() ==> pattern_valid(#[trigger] ps[i]@)
}

impl FilterPatterns {
    pub open spec fn pattern_seq(&self) -> Seq<String> {
        match self {
            FilterPatterns::Include(ps) => ps@,
            FilterPatterns::Exclude(ps) => ps@,
        }
    }

    pub open spec fn is_valid(&self) -> bool {
        all_valid(self.pattern_seq())
    }

    pub fn patterns(&self) -> (r: &Vec<String>)
        ensures
            r@ == self.pattern_seq(),
    {
        match self {
            FilterPatterns::Include(ps) => ps,
            FilterPatterns::Exclude(ps) => ps,
        }
    }
}

/// The filter's verdict on a project at namespace path `path`.
pub open spec fn accepts(path: Seq<char>, patterns: Option<FilterPatterns>) -> bool {
    match patterns {
        None => true,
        Some(FilterPatterns::Include(ps)) => some_match(ps@, path),
        Some(FilterPatterns::Exclude(ps)) => !some_match(ps@, path),
    }
}

pub open spec fn patterns_valid(patterns: Option<FilterPatterns>) -> bool {
    match patterns {
        None => true,
        Some(f) => f.is_valid(),
    }
}

/// The first pattern that the regex engine refuses, if any.
pub fn first_invalid_pattern(patterns: &Option<FilterPatterns>) -> (r: Option<usize>)
    ensures
        r is None <==> patterns_valid(*patterns),
        r matches Some(i) ==> patterns matches Some(f) && i < f.pattern_seq().len()
            && !pattern_valid(f.pattern_seq()[i as int]@)
            && all_valid(f.pattern_seq().take(i as int)),
{
    match patterns {
        None => None,
        Some(f) => {
            let ps = f.patterns();
            let mut i: usize = 0;
            while i < ps.len()
                invariant
                    ps@ == f.pattern_seq(),
                    *patterns == Some(*f),
                    i <= ps.len(),
                    all_valid(ps@.take(i as int)),
                decreases ps.len() - i,
            {
                if !pattern_compiles(ps[i].as_str()) {
                    assert(!all_valid(f.pattern_seq()));
                    return Some(i);
                }
                assert(ps@.take(i + 1) =~= ps@.take(i as int).push(ps@[i as int]));
                i = i + 1;
            }
            assert(ps@.take(i as int) =~= ps@);
            None
        },
    }
}

/// Whether some pattern of `ps` matches `text`.
fn any_pattern_matches(ps: &Vec<String>, text: &str) -> (r: bool)
    requires
        all_valid(ps@),
    ensures
        r == some_match(ps@, text@),
{
    let mut i: usize = 0;
    while i < ps.len()
        invariant
            all_valid(ps@),
            i <= ps.len(),
            forall|j: int| 0 <= j < i ==> !pattern_matches(#[trigger] ps@[j]@, text@),
        decreases ps.len() - i,
    {
        if pattern_is_match(ps[i].as_str(), text) {
            return true;
        }
        i = i + 1;
    }
    false
}

/// The filter's verdict on the project at namespace path `path`: with
/// `Include` some pattern matches it, with `Exclude` none does, and with no
/// patterns every project passes.
pub fn matches(path: &str, patterns: &Option<FilterPatterns>) -> (r: bool)
    requires
        patterns_valid(*patterns),
    ensures
        r == accepts(path@, *patterns),
{
    match patterns {
        None => true,
        Some(FilterPatterns::Include(ps)) => any_pattern_matches(ps, path),
        Some(FilterPatterns::Exclude(ps)) => !any_pattern_matches(ps, path),
    }
}

/// An include or exclude filter whose patterns the engine cannot compile is
/// an error; otherwise the filter's verdict on `path`.
pub fn checked_matches(path: &str, patterns: &Option<FilterPatterns>) -> (r: Option<bool>)
    ensures
        r is None <==> !patterns_valid(*patterns),
        r matches Some(b) ==> b == accepts(path@, *patterns),
{
    if first_invalid_pattern(patterns).is_some() {
        None
    } else {
        Some(matches(path, patterns))
    }
}

/// The projects of `ps` that the filter accepts, in their order.
pub open spec fn kept(ps: Seq<ProjectDescriptor>, patterns: Option<FilterPatterns>) -> Seq<ProjectDescriptor>
    decreases ps.len(),
{
    if ps.len() == 0 {
        ps
    } else if accepts(ps[0].path@, patterns) {
        seq![ps[0]] + kept(ps.drop_first(), patterns)
    } else {
        kept(ps.drop_first(), patterns)
    }
}

/// The projects that the filter accepts, in the order they were listed.
pub fn filter_projects(projects: Vec<ProjectDescriptor>, patterns: &Option<FilterPatterns>) -> (r: Vec<ProjectDescriptor>)
    requires
        patterns_valid(*patterns),
    ensures
        r@ == kept(projects@, *patterns),
{
    let ghost all = projects@;
    let mut rest = projects;
    let mut r: Vec<ProjectDescriptor> = Vec::new();
    while rest.len() > 0
        invariant
            patterns_valid(*patterns),
            r@ + kept(rest@, *patterns) == kept(all, *patterns),
        decreases rest@.len(),
    {
        let ghost before = rest@;
        let p = rest.remove(0);
        assert(rest@ =~= before.drop_first());
        if matches(p.path.as_str(), patterns) {
            assert(r@.push(p) + kept(rest@, *patterns) =~= r@ + (seq![p] + kept(rest@, *patterns)));
            r.push(p);
        }
    }
    assert(r@ + kept(rest@, *patterns) =~= r@);
    r
}

} // verus!
