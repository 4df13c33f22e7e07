use crate::text::{
    chars_of, contains, contains_text, ends_with, lowercase_of, same, to_lowercase,
};
use crate::types::GitHubAsset;
use vstd::prelude::*;

verus! {

/// A rule by which the asset to download is picked out of a release.
#[derive(Debug, Clone, PartialEq, Eq)]
pub enum MatchRule {
    /// The asset whose name is the given one, letter case aside.
    ExactName(String),
    /// The asset whose name, in lower case, holds one of the keywords or,
    /// failing that, ends with the extension.
    ContentHeuristic(Vec<String>, Option<String>),
}

/// A rule as plain values.
pub ghost enum RuleView {
    ExactName(Seq<char>),
    ContentHeuristic(Seq<Seq<char>>, Option<Seq<char>>),
}

/// The characters of each text of a list.
pub open spec fn words_of(words: Seq<String>) -> Seq<Seq<char>> {
    Seq::new(words.len(), |i: int| words[i]@)
}

impl View for MatchRule {
    type V = RuleView;

    open spec fn view(&self) -> RuleView {
        match self {
            MatchRule::ExactName(name) => RuleView::ExactName(name@),
            MatchRule::ContentHeuristic(keywords, extension) => RuleView::ContentHeuristic(
                words_of(keywords@),
                match extension {
                    Some(e) => Some(e@),
                    None => None,
                },
            ),
        }
    }
}

/// One test that a name can pass.
pub ghost enum Probe {
    /// The name is the given one, letter case aside.
    Exact(Seq<char>),
    /// The name, in lower case, holds one of the keywords.
    Keyword(Seq<Seq<char>>),
    /// The name, in lower case, ends with the extension.
    Extension(Seq<char>),
}

/// Whether a name holds one of the keywords once it is put in lower case.
pub open spec fn holds_keyword(name: Seq<char>, keywords: Seq<Seq<char>>) -> bool {
    exists|k: int|
        0 <= k < keywords.len() && contains_text(lowercase_of(name), #[trigger] keywords[k])
}

/// Whether a name passes a test.
pub open spec fn passes(probe: Probe, name: Seq<char>) -> bool {
    match probe {
        Probe::Exact(expected) => lowercase_of(name) == lowercase_of(expected),
        Probe::Keyword(keywords) => holds_keyword(name, keywords),
        Probe::Extension(extension) => extension.is_suffix_of(lowercase_of(name)),
    }
}

/// The index of the first name at or after `from` that passes the test.
pub open spec fn first_passing(names: Seq<Seq<char>>, probe: Probe, from: int) -> Option<int>
    decreases names.len() - from,
{
    if from < 0 || from >= names.len() {
        None
    } else if passes(probe, names[from]) {
        Some(from)
    } else {
        first_passing(names, probe, from + 1)
    }
}

/// The index of the asset that a rule picks among the names of a release, in
/// the order in which the release lists them.
pub open spec fn matched_index(names: Seq<Seq<char>>, rule: RuleView) -> Option<int> {
    match rule {
        RuleView::ExactName(expected) => first_passing(names, Probe::Exact(expected), 0),
        RuleView::ContentHeuristic(keywords, extension) => {
            match first_passing(names, Probe::Keyword(keywords), 0) {
                Some(i) => Some(i),
                None => match extension {
                    Some(e) => first_passing(names, Probe::Extension(e), 0),
                    None => None,
                },
            }
        },
    }
}

/// The index of the asset that the first rule with a match picks, the rules
/// at or after `from` being tried in order.
pub open spec fn matched_by(names: Seq<Seq<char>>, rules: Seq<RuleView>, from: int) -> Option<
    int,
>
    decreases rules.len() - from,
{
    if from < 0 || from >= rules.len() {
        None
    } else {
        match matched_index(names, rules[from]) {
            Some(i) => Some(i),
            None => matched_by(names, rules, from + 1),
        }
    }
}

/// The names of the assets of a release.
pub open spec fn names_of(assets: Seq<GitHubAsset>) -> Seq<Seq<char>> {
    Seq::new(assets.len(), |i: int| assets[i].name@)
}

/// The views of the rules of a list.
pub open spec fn rules_of(rules: Seq<MatchRule>) -> Seq<RuleView> {
    Seq::new(rules.len(), |i: int| rules[i]@)
}

/// What `first_passing` finds is the least index at or after `from` whose
/// name passes, and it finds nothing only where no name from there on passes.
pub proof fn first_passing_is_first(names: Seq<Seq<char>>, probe: Probe, from: int)
    requires
        0 <= from,
    ensures
        match first_passing(names, probe, from) {
            Some(i) => {
                &&& from <= i < names.len()
                &&& passes(probe, names[i])
                &&& forall|j: int| from <= j < i ==> !passes(probe, #[trigger] names[j])
            },
            None => forall|j: int| from <= j < names.len() ==> !passes(probe, #[trigger] names[j]),
        },
    decreases names.len() - from,
{
    if from < names.len() && !passes(probe, names[from]) {
        first_passing_is_first(names, probe, from + 1);
    }
}

/// What the rules pick is the index of one of the names.
pub proof fn matched_by_in_range(names: Seq<Seq<char>>, rules: Seq<RuleView>, from: int)
    requires
        0 <= from,
    ensures
        match matched_by(names, rules, from) {
            Some(i) => 0 <= i < names.len(),
            None => true,
        },
    decreases rules.len() - from,
{
    if from < rules.len() {
        match rules[from] {
            RuleView::ExactName(expected) => {
                first_passing_is_first(names, Probe::Exact(expected), 0);
            },
            RuleView::ContentHeuristic(keywords, extension) => {
                first_passing_is_first(names, Probe::Keyword(keywords), 0);
                if extension is Some {
                    first_passing_is_first(names, Probe::Extension(extension->0), 0);
                }
            },
        }
        matched_by_in_range(names, rules, from + 1);
    }
}

/// The names of the assets in lower case.
fn lowered_names(assets: &[GitHubAsset]) -> (lowered: Vec<Vec<char>>)
    ensures
        lowered.len() == assets.len(),
        forall|i: int|
            0 <= i < assets.len() ==> (#[trigger] lowered@[i])@ == lowercase_of(assets@[i].name@),
{
    let mut lowered: Vec<Vec<char>> = Vec::new();
    let mut i: usize = 0;
    while i < assets.len()
        invariant
            i <= assets.len(),
            lowered.len() == i,
            forall|j: int|
                0 <= j < i ==> (#[trigger] lowered@[j])@ == lowercase_of(assets@[j].name@),
        decreases assets.len() - i,
    {
        let lower: String = to_lowercase(assets[i].name.as_str());
        lowered.push(chars_of(lower.as_str()));
        i = i + 1;
    }
    lowered
}

/// Whether the text holds one of the keywords.
fn holds_any(lowered: &Vec<char>, keywords: &Vec<String>) -> (found: bool)
    ensures
        found == exists|k: int|
            0 <= k < keywords.len() && contains_text(lowered@, #[trigger] words_of(keywords@)[k]),
{
    let mut k: usize = 0;
    while k < keywords.len()
        invariant
            k <= keywords.len(),
            forall|j: int| 0 <= j < k ==> !contains_text(lowered@, #[trigger] words_of(keywords@)[j]),
        decreases keywords.len() - k,
    {
        let word: Vec<char> = chars_of(keywords[k].as_str());
        assert(words_of(keywords@)[k as int] == word@);
        if contains(lowered, &word) {
            return true;
        }
        k = k + 1;
    }
    false
}

/// The first name that is the expected one, letter case aside.
fn find_exact(assets: &[GitHubAsset], lowered: &Vec<Vec<char>>, expected: &str) -> (at: Option<
    usize,
>)
    requires
        lowered.len() == assets.len(),
        forall|i: int|
            0 <= i < assets.len() ==> (#[trigger] lowered@[i])@ == lowercase_of(assets@[i].name@),
    ensures
        match at {
            Some(i) => first_passing(names_of(assets@), Probe::Exact(expected@), 0) == Some(
                i as int,
            ),
            None => first_passing(names_of(assets@), Probe::Exact(expected@), 0) is None,
        },
{
    let lower: String = to_lowercase(expected);
    let wanted: Vec<char> = chars_of(lower.as_str());
    let ghost names = names_of(assets@);
    let ghost probe = Probe::Exact(expected@);
    let mut i: usize = 0;
    while i < lowered.len()
        invariant
            i <= lowered.len(),
            lowered.len() == assets.len(),
            names == names_of(assets@),
            probe == Probe::Exact(expected@),
            wanted@ == lowercase_of(expected@),
            forall|j: int|
                0 <= j < assets.len() ==> (#[trigger] lowered@[j])@ == lowercase_of(
                    assets@[j].name@,
                ),
            first_passing(names, probe, 0) == first_passing(names, probe, i as int),
        decreases lowered.len() - i,
    {
        assert(names[i as int] == assets@[i as int].name@);
        if same(&lowered[i], &wanted) {
            return Some(i);
        }
        i = i + 1;
    }
    None
}

/// The first name that holds one of the keywords.
fn find_keyword(assets: &[GitHubAsset], lowered: &Vec<Vec<char>>, keywords: &Vec<String>) -> (at:
    Option<usize>)
    requires
        lowered.len() == assets.len(),
        forall|i: int|
            0 <= i < assets.len() ==> (#[trigger] lowered@[i])@ == lowercase_of(assets@[i].name@),
    ensures
        match at {
            Some(i) => first_passing(names_of(assets@), Probe::Keyword(words_of(keywords@)), 0)
                == Some(i as int),
            None => first_passing(names_of(assets@), Probe::Keyword(words_of(keywords@)), 0)
                is None,
        },
{
    let ghost names = names_of(assets@);
    let ghost probe = Probe::Keyword(words_of(keywords@));
    let mut i: usize = 0;
    while i < lowered.len()
        invariant
            i <= lowered.len(),
            lowered.len() == assets.len(),
            names == names_of(assets@),
            probe == Probe::Keyword(words_of(keywords@)),
            forall|j: int|
                0 <= j < assets.len() ==> (#[trigger] lowered@[j])@ == lowercase_of(
                    assets@[j].name@,
                ),
            first_passing(names, probe, 0) == first_passing(names, probe, i as int),
        decreases lowered.len() - i,
    {
        assert(names[i as int] == assets@[i as int].name@);
        if holds_any(&lowered[i], keywords) {
            return Some(i);
        }
        i = i + 1;
    }
    None
}

/// The first name that ends with the extension.
fn find_extension(assets: &[GitHubAsset], lowered: &Vec<Vec<char>>, extension: &str) -> (at:
    Option<usize>)
    requires
        lowered.len() == assets.len(),
        forall|i: int|
            0 <= i < assets.len() ==> (#[trigger] lowered@[i])@ == lowercase_of(assets@[i].name@),
    ensures
        match at {
            Some(i) => first_passing(names_of(assets@), Probe::Extension(extension@), 0) == Some(
                i as int,
            ),
            None => first_passing(names_of(assets@), Probe::Extension(extension@), 0) is None,
        },
{
    let ending: Vec<char> = chars_of(extension);
    let ghost names = names_of(assets@);
    let ghost probe = Probe::Extension(extension@);
    let mut i: usize = 0;
    while i < lowered.len()
        invariant
            i <= lowered.len(),
            lowered.len() == assets.len(),
            names == names_of(assets@),
            probe == Probe::Extension(extension@),
            ending@ == extension@,
            forall|j: int|
                0 <= j < assets.len() ==> (#[trigger] lowered@[j])@ == lowercase_of(
                    assets@[j].name@,
                ),
            first_passing(names, probe, 0) == first_passing(names, probe, i as int),
        decreases lowered.len() - i,
    {
        assert(names[i as int] == assets@[i as int].name@);
        if ends_with(&lowered[i], &ending) {
            return Some(i);
        }
        i = i + 1;
    }
    None
}

/// Picks the asset of a release that the rule asks for: the first in the
/// order of the release. No match is no error: there is then nothing to take.
pub fn match_asset(assets: &[GitHubAsset], rule: &MatchRule) -> (at: Option<usize>)
    ensures
        match at {
            Some(i) => i < assets.len() && matched_index(names_of(assets@), rule@) == Some(
                i as int,
            ),
            None => matched_index(names_of(assets@), rule@) is None,
        },
{
    let lowered: Vec<Vec<char>> = lowered_names(assets);
    proof {
        let names = names_of(assets@);
        match rule@ {
            RuleView::ExactName(expected) => {
                first_passing_is_first(names, Probe::Exact(expected), 0);
            },
            RuleView::ContentHeuristic(keywords, extension) => {
                first_passing_is_first(names, Probe::Keyword(keywords), 0);
                if extension is Some {
                    first_passing_is_first(names, Probe::Extension(extension->0), 0);
                }
            },
        }
    }
    match rule {
        MatchRule::ExactName(expected) => find_exact(assets, &lowered, expected.as_str()),
        MatchRule::ContentHeuristic(keywords, extension) => {
            match find_keyword(assets, &lowered, keywords) {
                Some(i) => Some(i),
                None => match extension {
                    Some(e) => find_extension(assets, &lowered, e.as_str()),
                    None => None,
                },
            }
        },
    }
}

/// Picks the asset that the first rule with a match asks for, the rules being
/// tried in order: a later rule counts only where every earlier one found
/// nothing.
pub fn match_first(assets: &[GitHubAsset], rules: &Vec<MatchRule>) -> (at: Option<usize>)
    ensures
        match at {
            Some(i) => i < assets.len() && matched_by(names_of(assets@), rules_of(rules@), 0)
                == Some(i as int),
            None => matched_by(names_of(assets@), rules_of(rules@), 0) is None,
        },
{
    let ghost names = names_of(assets@);
    let ghost views = rules_of(rules@);
    let mut r: usize = 0;
    while r < rules.len()
        invariant
            r <= rules.len(),
            names == names_of(assets@),
            views == rules_of(rules@),
            matched_by(names, views, 0) == matched_by(names, views, r as int),
        decreases rules.len() - r,
    {
        assert(views[r as int] == rules@[r as int]@);
        match match_asset(assets, &rules[r]) {
            Some(i) => {
                return Some(i);
            },
            None => {},
        }
        r = r + 1;
    }
    None
}

} // verus!
