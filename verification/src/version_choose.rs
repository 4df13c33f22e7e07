use crate::text::{
    after_first, before_first, chars_of, count_leading, digits_number, find, has_char,
    leading_run, lemma_less_from_asymmetric, lemma_less_from_total, lemma_less_from_transitive,
    less, parse_digits, parse_unsigned, same, slice, split, split_of,
    string_of, text_less, texts_of, trim_start_of, unsigned_number, CharClass,
};
use std::cmp::Ordering;
use vstd::prelude::*;
use vstd::std_specs::cmp::{PartialEqSpecImpl, PartialOrdSpecImpl};

verus! {

/// The largest number that a field of a version can hold.
pub const FIELD_MAX: u64 = 0xFFFF_FFFF;

/// A version: three numbers and, for a prerelease, its marker.
#[derive(Debug, Clone)]
pub struct Version {
    pub major: u32,
    pub minor: u32,
    pub patch: u32,
    pub pre_release: Option<String>,
}

/// What a version is to the contracts: its three numbers, and the characters
/// of its prerelease marker where it has one.
pub ghost struct VersionView {
    pub major: int,
    pub minor: int,
    pub patch: int,
    pub pre_release: Option<Seq<char>>,
}

impl View for Version {
    type V = VersionView;

    open spec fn view(&self) -> VersionView {
        VersionView {
            major: self.major as int,
            minor: self.minor as int,
            patch: self.patch as int,
            pre_release: match self.pre_release {
                Some(marker) => Some(marker@),
                None => None,
            },
        }
    }
}

/// How two texts stand to each other in the lexicographic order.
pub open spec fn text_order(a: Seq<char>, b: Seq<char>) -> Ordering {
    if text_less(a, b) {
        Ordering::Less
    } else if text_less(b, a) {
        Ordering::Greater
    } else {
        Ordering::Equal
    }
}

/// How two numbers stand to each other.
pub open spec fn number_order(a: int, b: int) -> Ordering {
    if a < b {
        Ordering::Less
    } else if a > b {
        Ordering::Greater
    } else {
        Ordering::Equal
    }
}

/// How two versions stand to each other. The major numbers decide, then the
/// minor numbers, then the patch numbers. With the three equal, a version
/// without a prerelease marker is greater than one with a marker, and two
/// markers are compared as texts.
pub open spec fn order_of(a: VersionView, b: VersionView) -> Ordering {
    if a.major != b.major {
        number_order(a.major, b.major)
    } else if a.minor != b.minor {
        number_order(a.minor, b.minor)
    } else if a.patch != b.patch {
        number_order(a.patch, b.patch)
    } else {
        match (a.pre_release, b.pre_release) {
            (None, None) => Ordering::Equal,
            (None, Some(_)) => Ordering::Greater,
            (Some(_), None) => Ordering::Less,
            (Some(x), Some(y)) => text_order(x, y),
        }
    }
}

/// Whether version `a` is strictly greater than version `b`.
pub open spec fn ranks_above(a: VersionView, b: VersionView) -> bool {
    order_of(a, b) == Ordering::Greater
}

/// The version that a text denotes when it is written in full: any number of
/// `v` at the start, then three or more unsigned decimals separated by `.`,
/// of which the first three count, then, after the first `-` if there is one,
/// the prerelease marker. `None` where fewer than three numbers stand there or
/// one of the first three is no unsigned decimal that fits the field.
pub open spec fn strict_version(s: Seq<char>) -> Option<VersionView> {
    let body = trim_start_of(s, CharClass::Is('v'));
    let numbers = split_of(before_first(body, '-'), '.');
    if numbers.len() >= 3 && unsigned_number(numbers[0], FIELD_MAX as int) is Some
        && unsigned_number(numbers[1], FIELD_MAX as int) is Some && unsigned_number(
        numbers[2],
        FIELD_MAX as int,
    ) is Some {
        Some(
            VersionView {
                major: unsigned_number(numbers[0], FIELD_MAX as int)->0,
                minor: unsigned_number(numbers[1], FIELD_MAX as int)->0,
                patch: unsigned_number(numbers[2], FIELD_MAX as int)->0,
                pre_release: if has_char(body, '-') {
                    Some(after_first(body, '-'))
                } else {
                    None
                },
            },
        )
    } else {
        None
    }
}

impl Version {
    /// Reads a version that is written in full; `None` for any other text.
    pub fn parse(version_str: &str) -> (version: Option<Version>)
        ensures
            match version {
                Some(v) => strict_version(version_str@) == Some(v@),
                None => strict_version(version_str@) is None,
            },
    {
        let all: Vec<char> = chars_of(version_str);
        let skip: usize = count_leading(&all, CharClass::Is('v'));
        let body: Vec<char> = slice(&all, skip, all.len());
        let dash: usize = find(&body, '-');
        let number_part: Vec<char> = slice(&body, 0, dash);
        let pre_release: Option<String> = if dash < body.len() {
            let marker: Vec<char> = slice(&body, dash + 1, body.len());
            Some(string_of(&marker))
        } else {
            None
        };
        let numbers: Vec<Vec<char>> = split(&number_part, '.');
        if numbers.len() < 3 {
            return None;
        }
        proof {
            let fields = split_of(number_part@, '.');
            assert(texts_of(numbers@)[0] == fields[0]);
            assert(texts_of(numbers@)[1] == fields[1]);
            assert(texts_of(numbers@)[2] == fields[2]);
        }
        let major: u64 = match parse_unsigned(&numbers[0], FIELD_MAX) {
            Some(n) => n,
            None => { return None; },
        };
        let minor: u64 = match parse_unsigned(&numbers[1], FIELD_MAX) {
            Some(n) => n,
            None => { return None; },
        };
        let patch: u64 = match parse_unsigned(&numbers[2], FIELD_MAX) {
            Some(n) => n,
            None => { return None; },
        };
        Some(Version { major: major as u32, minor: minor as u32, patch: patch as u32, pre_release })
    }

    /// Whether the version carries a prerelease marker.
    pub fn is_prerelease(&self) -> (prerelease: bool)
        ensures
            prerelease == (self@.pre_release is Some),
    {
        self.pre_release.is_some()
    }

    /// How this version stands to the other.
    pub fn cmp(&self, other: &Version) -> (order: Ordering)
        ensures
            order == order_of(self@, other@),
    {
        if self.major != other.major {
            return if self.major < other.major { Ordering::Less } else { Ordering::Greater };
        }
        if self.minor != other.minor {
            return if self.minor < other.minor { Ordering::Less } else { Ordering::Greater };
        }
        if self.patch != other.patch {
            return if self.patch < other.patch { Ordering::Less } else { Ordering::Greater };
        }
        match (&self.pre_release, &other.pre_release) {
            (None, None) => Ordering::Equal,
            (None, Some(_)) => Ordering::Greater,
            (Some(_), None) => Ordering::Less,
            (Some(a), Some(b)) => {
                let x: Vec<char> = chars_of(a.as_str());
                let y: Vec<char> = chars_of(b.as_str());
                if less(&x, &y) {
                    Ordering::Less
                } else if less(&y, &x) {
                    Ordering::Greater
                } else {
                    Ordering::Equal
                }
            },
        }
    }

    /// Whether this version is strictly greater than the other.
    pub fn outranks(&self, other: &Version) -> (above: bool)
        ensures
            above == ranks_above(self@, other@),
    {
        match self.cmp(other) {
            Ordering::Greater => true,
            _ => false,
        }
    }
}

impl PartialEq for Version {
    fn eq(&self, other: &Version) -> (equal: bool) {
        let markers: bool = match (&self.pre_release, &other.pre_release) {
            (None, None) => true,
            (Some(a), Some(b)) => *a == *b,
            _ => false,
        };
        self.major == other.major && self.minor == other.minor && self.patch == other.patch
            && markers
    }
}

impl PartialEqSpecImpl for Version {
    open spec fn obeys_eq_spec() -> bool {
        true
    }

    open spec fn eq_spec(&self, other: &Version) -> bool {
        self@ == other@
    }
}

impl PartialOrd for Version {
    fn partial_cmp(&self, other: &Version) -> (order: Option<Ordering>) {
        Some(self.cmp(other))
    }
}

impl PartialOrdSpecImpl for Version {
    open spec fn obeys_partial_cmp_spec() -> bool {
        true
    }

    open spec fn partial_cmp_spec(&self, other: &Version) -> Option<Ordering> {
        Some(order_of(self@, other@))
    }
}

/// A tag without what stands before its first decimal digit.
pub open spec fn tag_body(tag: Seq<char>) -> Seq<char> {
    trim_start_of(tag, CharClass::NotDigit)
}

/// The first field of a tag: its body up to the first `.`.
pub open spec fn tag_major_field(tag: Seq<char>) -> Seq<char> {
    before_first(tag_body(tag), '.')
}

/// The second field of a tag: what stands between the first `.` of its body
/// and the next; empty where the body has no `.`.
pub open spec fn tag_minor_field(tag: Seq<char>) -> Seq<char> {
    before_first(after_first(tag_body(tag), '.'), '.')
}

/// The third field of a tag: all that stands after the second `.` of its
/// body; empty where the body has fewer than two.
pub open spec fn tag_patch_field(tag: Seq<char>) -> Seq<char> {
    after_first(after_first(tag_body(tag), '.'), '.')
}

/// The number of a field: what the digits at its start denote, or 0 where
/// there is no digit there or the number does not fit the field.
pub open spec fn field_number(field: Seq<char>) -> int {
    match digits_number(
        field.subrange(0, leading_run(field, CharClass::Digit) as int),
        FIELD_MAX as int,
    ) {
        Some(n) => n,
        None => 0,
    }
}

/// What stands in a field behind the digits at its start.
pub open spec fn field_suffix(field: Seq<char>) -> Seq<char> {
    trim_start_of(field, CharClass::Digit)
}

/// The prerelease marker of a tag: what its three fields hold behind their
/// digits, one after the other. A tag with an empty marker is stable.
pub open spec fn tag_marker(tag: Seq<char>) -> Seq<char> {
    field_suffix(tag_major_field(tag)) + field_suffix(tag_minor_field(tag)) + field_suffix(
        tag_patch_field(tag),
    )
}

/// The version that any tag stands for. What stands before the first digit is
/// dropped; the rest is cut at its first two `.` into up to three fields; each
/// field gives a number, and what the fields hold besides is the prerelease
/// marker. A field that is missing, or whose number cannot be read, counts 0.
pub open spec fn tag_version(tag: Seq<char>) -> VersionView {
    VersionView {
        major: field_number(tag_major_field(tag)),
        minor: field_number(tag_minor_field(tag)),
        patch: field_number(tag_patch_field(tag)),
        pre_release: if tag_marker(tag).len() == 0 {
            None
        } else {
            Some(tag_marker(tag))
        },
    }
}

/// How two tags stand to each other: as the versions that they stand for.
pub open spec fn compare_spec(a: Seq<char>, b: Seq<char>) -> Ordering {
    order_of(tag_version(a), tag_version(b))
}

/// Whether tag `remote` stands for a strictly greater version than tag `local`.
pub open spec fn newer_than(remote: Seq<char>, local: Seq<char>) -> bool {
    compare_spec(remote, local) == Ordering::Greater
}

/// The number and the suffix of one field.
fn read_field(field: &Vec<char>) -> (parts: (u32, Vec<char>))
    ensures
        parts.0 == field_number(field@),
        parts.1@ == field_suffix(field@),
{
    let run: usize = count_leading(field, CharClass::Digit);
    let digits: Vec<char> = slice(field, 0, run);
    let suffix: Vec<char> = slice(field, run, field.len());
    let number: u32 = match parse_digits(&digits, FIELD_MAX) {
        Some(n) => n as u32,
        None => 0,
    };
    (number, suffix)
}

/// The part of the text before the first `c` and the part after it.
fn cut_at(v: &Vec<char>, c: char) -> (parts: (Vec<char>, Vec<char>))
    ensures
        parts.0@ == before_first(v@, c),
        parts.1@ == after_first(v@, c),
{
    let at: usize = find(v, c);
    let head: Vec<char> = slice(v, 0, at);
    let tail: Vec<char> = if at < v.len() {
        slice(v, at + 1, v.len())
    } else {
        Vec::new()
    };
    (head, tail)
}

impl Version {
    /// The version that the tag stands for. Every tag stands for one.
    pub fn from_tag(tag: &str) -> (version: Version)
        ensures
            version@ == tag_version(tag@),
    {
        let all: Vec<char> = chars_of(tag);
        let skip: usize = count_leading(&all, CharClass::NotDigit);
        let body: Vec<char> = slice(&all, skip, all.len());
        let (major_field, rest) = cut_at(&body, '.');
        let (minor_field, patch_field) = cut_at(&rest, '.');
        let (major, major_suffix) = read_field(&major_field);
        let (minor, minor_suffix) = read_field(&minor_field);
        let (patch, patch_suffix) = read_field(&patch_field);
        let mut marker: Vec<char> = major_suffix;
        let mut second: Vec<char> = minor_suffix;
        let mut third: Vec<char> = patch_suffix;
        marker.append(&mut second);
        marker.append(&mut third);
        let pre_release: Option<String> = if marker.len() == 0 {
            None
        } else {
            Some(string_of(&marker))
        };
        Version { major, minor, patch, pre_release }
    }
}

/// Compares two tags by the versions that they stand for. Never fails: a tag
/// that holds no number stands for version 0.0.0.
pub fn compare(a: &str, b: &str) -> (order: Ordering)
    ensures
        order == compare_spec(a@, b@),
{
    let left: Version = Version::from_tag(a);
    let right: Version = Version::from_tag(b);
    left.cmp(&right)
}

/// Whether tag `remote` stands for a strictly greater version than tag `local`.
pub fn is_newer(remote: &str, local: &str) -> (newer: bool)
    ensures
        newer == newer_than(remote@, local@),
{
    match compare(remote, local) {
        Ordering::Greater => true,
        _ => false,
    }
}

/// Of two tags with the same three numbers, a stable one ranks strictly above
/// a prerelease one, whichever way round the two are compared.
pub proof fn stable_ranks_above_prerelease(stable: Seq<char>, prerelease: Seq<char>)
    requires
        tag_version(stable).major == tag_version(prerelease).major,
        tag_version(stable).minor == tag_version(prerelease).minor,
        tag_version(stable).patch == tag_version(prerelease).patch,
        tag_marker(stable).len() == 0,
        tag_marker(prerelease).len() > 0,
    ensures
        compare_spec(stable, prerelease) == Ordering::Greater,
        compare_spec(prerelease, stable) == Ordering::Less,
        newer_than(stable, prerelease),
        !newer_than(prerelease, stable),
{
}

/// The opposite of an order.
pub open spec fn reverse_of(order: Ordering) -> Ordering {
    match order {
        Ordering::Less => Ordering::Greater,
        Ordering::Equal => Ordering::Equal,
        Ordering::Greater => Ordering::Less,
    }
}

/// Comparing two versions the other way round gives the opposite order, and
/// two versions compare equal exactly when they are the same.
pub proof fn order_is_total(a: VersionView, b: VersionView)
    ensures
        order_of(b, a) == reverse_of(order_of(a, b)),
        order_of(a, b) == Ordering::Equal <==> a == b,
{
    if a.major == b.major && a.minor == b.minor && a.patch == b.patch {
        match (a.pre_release, b.pre_release) {
            (Some(x), Some(y)) => {
                if text_less(x, y) {
                    lemma_less_from_asymmetric(x, y, 0);
                } else if text_less(y, x) {
                    lemma_less_from_asymmetric(y, x, 0);
                } else {
                    assert(x.subrange(0, 0) == y.subrange(0, 0));
                    lemma_less_from_total(x, y, 0);
                }
            },
            _ => {},
        }
    }
}

/// The order of versions is transitive: what is at most `b`, where `b` is at
/// most `c`, is at most `c`, and strictly less where one of the two steps is
/// strict.
pub proof fn order_is_transitive(a: VersionView, b: VersionView, c: VersionView)
    requires
        order_of(a, b) != Ordering::Greater,
        order_of(b, c) != Ordering::Greater,
    ensures
        order_of(a, c) != Ordering::Greater,
        order_of(a, b) == Ordering::Less || order_of(b, c) == Ordering::Less ==> order_of(a, c)
            == Ordering::Less,
{
    order_is_total(a, b);
    order_is_total(b, c);
    order_is_total(a, c);
    if a.major == b.major && b.major == c.major && a.minor == b.minor && b.minor == c.minor
        && a.patch == b.patch && b.patch == c.patch {
        match (a.pre_release, b.pre_release, c.pre_release) {
            (Some(x), Some(y), Some(z)) => {
                if text_less(x, y) && text_less(y, z) {
                    lemma_less_from_transitive(x, y, z, 0);
                }
                if text_less(z, x) {
                    lemma_less_from_asymmetric(z, x, 0);
                    if text_less(x, y) {
                        lemma_less_from_transitive(z, x, y, 0);
                        lemma_less_from_asymmetric(z, y, 0);
                    }
                    if text_less(y, z) {
                        lemma_less_from_transitive(y, z, x, 0);
                        lemma_less_from_asymmetric(y, x, 0);
                    }
                }
            },
            _ => {},
        }
    }
}

/// The comparison of tags is a total order of the versions that they stand
/// for: the other way round it gives the opposite, equal means the same
/// version, and it is transitive.
pub proof fn compare_is_total(a: Seq<char>, b: Seq<char>, c: Seq<char>)
    ensures
        compare_spec(b, a) == reverse_of(compare_spec(a, b)),
        compare_spec(a, b) == Ordering::Equal <==> tag_version(a) == tag_version(b),
        compare_spec(a, b) != Ordering::Greater && compare_spec(b, c) != Ordering::Greater
            ==> compare_spec(a, c) != Ordering::Greater,
{
    order_is_total(tag_version(a), tag_version(b));
    if compare_spec(a, b) != Ordering::Greater && compare_spec(b, c) != Ordering::Greater {
        order_is_transitive(tag_version(a), tag_version(b), tag_version(c));
    }
}

/// Whether a text can be chosen: it is a version written in full and, where
/// only stable versions are wanted, carries no prerelease marker.
pub open spec fn eligible(s: Seq<char>, stable_only: bool) -> bool {
    strict_version(s) is Some && (stable_only ==> strict_version(s)->0.pre_release is None)
}

/// The index of the text that is chosen among the first `n`: the first one
/// that can be chosen, replaced by each later one that ranks strictly above
/// it. `None` where none of them can be chosen.
pub open spec fn latest_upto(versions: Seq<String>, stable_only: bool, n: int) -> Option<int>
    decreases n,
{
    if n <= 0 {
        None
    } else {
        let earlier = latest_upto(versions, stable_only, n - 1);
        let s = versions[n - 1]@;
        if !eligible(s, stable_only) {
            earlier
        } else {
            match earlier {
                None => Some(n - 1),
                Some(best) => if ranks_above(
                    strict_version(s)->0,
                    strict_version(versions[best]@)->0,
                ) {
                    Some(n - 1)
                } else {
                    Some(best)
                },
            }
        }
    }
}

/// The text that is chosen among all of them.
pub open spec fn latest_of(versions: Seq<String>, stable_only: bool) -> Option<String> {
    match latest_upto(versions, stable_only, versions.len() as int) {
        Some(i) => Some(versions[i]),
        None => None,
    }
}

/// The text chosen among the first `n` can be chosen, no text among them
/// ranks above it, and it ranks strictly above each one before it. None is
/// chosen only where none can be.
pub proof fn latest_is_greatest(versions: Seq<String>, stable_only: bool, n: int)
    requires
        0 <= n <= versions.len(),
    ensures
        match latest_upto(versions, stable_only, n) {
            Some(i) => {
                &&& 0 <= i < n
                &&& eligible(versions[i]@, stable_only)
                &&& forall|j: int|
                    0 <= j < n && eligible(#[trigger] versions[j]@, stable_only) ==> !ranks_above(
                        strict_version(versions[j]@)->0,
                        strict_version(versions[i]@)->0,
                    )
                &&& forall|j: int|
                    0 <= j < i && eligible(#[trigger] versions[j]@, stable_only) ==> ranks_above(
                        strict_version(versions[i]@)->0,
                        strict_version(versions[j]@)->0,
                    )
            },
            None => forall|j: int| 0 <= j < n ==> !eligible(#[trigger] versions[j]@, stable_only),
        },
    decreases n,
{
    if n > 0 {
        latest_is_greatest(versions, stable_only, n - 1);
        let s = versions[n - 1]@;
        if eligible(s, stable_only) {
            match latest_upto(versions, stable_only, n - 1) {
                Some(best) => {
                    let new = strict_version(s)->0;
                    let old = strict_version(versions[best]@)->0;
                    order_is_total(new, old);
                    if ranks_above(new, old) {
                        assert forall|j: int|
                            0 <= j < n - 1 && eligible(
                                #[trigger] versions[j]@,
                                stable_only,
                            ) implies ranks_above(new, strict_version(versions[j]@)->0)
                            && !ranks_above(strict_version(versions[j]@)->0, new) by {
                            let other = strict_version(versions[j]@)->0;
                            order_is_total(other, old);
                            order_is_total(other, new);
                            order_is_transitive(other, old, new);
                        }
                    }
                },
                None => {},
            }
        }
    }
}

/// The first of the texts whose version no other one outranks.
fn pick_latest(versions: &[String], stable_only: bool) -> (chosen: Option<String>)
    ensures
        chosen == latest_of(versions@, stable_only),
{
    let mut best: Option<(usize, Version)> = None;
    let mut i: usize = 0;
    while i < versions.len()
        invariant
            i <= versions.len(),
            match best {
                Some((at, version)) => {
                    &&& at < i
                    &&& latest_upto(versions@, stable_only, i as int) == Some(at as int)
                    &&& strict_version(versions@[at as int]@) == Some(version@)
                },
                None => latest_upto(versions@, stable_only, i as int) is None,
            },
        decreases versions.len() - i,
    {
        match Version::parse(versions[i].as_str()) {
            Some(version) => {
                if !stable_only || !version.is_prerelease() {
                    let better: bool = match &best {
                        None => true,
                        Some((_, current)) => version.outranks(current),
                    };
                    if better {
                        best = Some((i, version));
                    }
                }
            },
            None => {},
        }
        i = i + 1;
    }
    match best {
        Some((at, _)) => Some(versions[at].clone()),
        None => None,
    }
}

/// Chooses the text with the greatest version among those that are written in
/// full and carry no prerelease marker; of several with that version, the
/// first. `None` where no text qualifies.
pub fn choose_latest_stable(versions: &[String]) -> (chosen: Option<String>)
    ensures
        chosen == latest_of(versions@, true),
{
    pick_latest(versions, true)
}

/// Chooses the text with the greatest version among those that are written in
/// full, prereleases included; of several with that version, the first.
/// `None` where no text qualifies.
pub fn choose_latest(versions: &[String]) -> (chosen: Option<String>)
    ensures
        chosen == latest_of(versions@, false),
{
    pick_latest(versions, false)
}

} // verus!
