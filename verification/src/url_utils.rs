use crate::text::{
    alphanumeric, before_first, chars_of, contains, contains_text, count_trailing, find,
    has_char, is_alphanumeric, join, parse_unsigned, slice,
    split, split_of, starts_with, string_of, texts_of, trim_class, trim_end_of, trimmed,
    unsigned_number, CharClass,
};
use vstd::prelude::*;

verus! {

/// The mirror host that stands in for a configured one that cannot be used.
pub open spec fn default_mirror() -> Seq<char> {
    "gh-proxy.com"@
}

/// `s` without `prefix` at its start, where it starts with it.
pub open spec fn without_prefix(s: Seq<char>, prefix: Seq<char>) -> Option<Seq<char>> {
    if prefix.is_prefix_of(s) {
        Some(s.subrange(prefix.len() as int, s.len() as int))
    } else {
        None
    }
}

/// How many bytes a character takes in UTF-8.
pub open spec fn char_width(c: char) -> nat {
    if (c as u32) < 0x80 {
        1
    } else if (c as u32) < 0x800 {
        2
    } else if (c as u32) < 0x10000 {
        3
    } else {
        4
    }
}

/// How many bytes the first `n` characters of `s` take in UTF-8.
pub open spec fn width_upto(s: Seq<char>, n: int) -> nat
    decreases n,
{
    if n <= 0 {
        0
    } else {
        width_upto(s, n - 1) + char_width(s[n - 1])
    }
}

/// How many bytes a text takes in UTF-8.
pub open spec fn byte_length(s: Seq<char>) -> nat {
    width_upto(s, s.len() as int)
}

/// Whether a text can be one label of a host name: not empty, at most 63
/// bytes, made of letters, numbers and `-`, with no `-` at either end.
pub open spec fn valid_label(part: Seq<char>) -> bool {
    &&& part.len() > 0
    &&& byte_length(part) <= 63
    &&& forall|i: int| 0 <= i < part.len() ==> alphanumeric(#[trigger] part[i]) || part[i] == '-'
    &&& part[0] != '-'
    &&& part[part.len() - 1] != '-'
}

/// Whether a text can be one number of a dotted IPv4 address: an unsigned
/// decimal of at most 255, with no `0` before further characters.
pub open spec fn valid_octet(part: Seq<char>) -> bool {
    unsigned_number(part, 255) is Some && !(part.len() > 1 && part[0] == '0')
}

/// Whether a text is a dotted IPv4 address: four numbers separated by `.`.
pub open spec fn ipv4_text(addr: Seq<char>) -> bool {
    let parts = split_of(addr, '.');
    parts.len() == 4 && forall|i: int| 0 <= i < 4 ==> valid_octet(#[trigger] parts[i])
}

/// Whether a text is a host: a dotted IPv4 address, or two or more labels
/// separated by `.`; in either case not empty and at most 253 bytes long.
pub open spec fn valid_host(domain: Seq<char>) -> bool {
    let parts = split_of(domain, '.');
    &&& domain.len() > 0
    &&& byte_length(domain) <= 253
    &&& ipv4_text(domain) || (parts.len() >= 2 && forall|i: int|
        0 <= i < parts.len() ==> valid_label(#[trigger] parts[i]))
}

/// The host that a configured mirror names: the text without white space
/// round it, without `https://` or `http://` at its start, up to the first `/`.
pub open spec fn mirror_host(input: Seq<char>) -> Seq<char> {
    let text = trimmed(input);
    let rest = match without_prefix(text, "https://"@) {
        Some(rest) => rest,
        None => match without_prefix(text, "http://"@) {
            Some(rest) => rest,
            None => text,
        },
    };
    before_first(rest, '/')
}

/// The mirror host to use for a configured one: the host that it names where
/// that is a host without a blank or a tab, the default mirror otherwise.
pub open spec fn sanitized_mirror(input: Seq<char>) -> Seq<char> {
    let host = mirror_host(input);
    if host.len() == 0 || has_char(host, ' ') || has_char(host, '\t') || !valid_host(host) {
        default_mirror()
    } else {
        host
    }
}

/// The mirror host that a configured mirror stands for: none where nothing
/// but white space is configured, else the configured one brought into the
/// form of a host.
pub open spec fn resolved_mirror(input: Seq<char>) -> Seq<char> {
    if trimmed(input).len() == 0 {
        Seq::empty()
    } else {
        sanitized_mirror(input)
    }
}

/// The address of a repository for a configured one: the text without white
/// space round it and without `/` at its end; where that does not start with
/// `http`, holds a `/` and does not name `github.com`, it is taken as a path
/// on `https://github.com/`.
pub open spec fn sanitized_repo(input: Seq<char>) -> Seq<char> {
    let url = trim_end_of(trimmed(input), CharClass::Is('/'));
    if !"http"@.is_prefix_of(url) && has_char(url, '/') && !contains_text(url, "github.com"@) {
        "https://github.com/"@ + url
    } else {
        url
    }
}

/// The first two pieces of a path cut at `/`, where there are two and neither
/// is empty.
pub open spec fn owner_and_name(path: Seq<char>) -> Option<(Seq<char>, Seq<char>)> {
    let parts = split_of(path, '/');
    if parts.len() >= 2 && parts[0].len() > 0 && parts[1].len() > 0 {
        Some((parts[0], parts[1]))
    } else {
        None
    }
}

/// The owner and the name of the repository that a text names. The text,
/// without white space round it, is either an address on
/// `https://github.com/`, whose path gives the two, or a path with a `/` and
/// without `://`, which gives them itself.
pub open spec fn repo_of(repo_url: Seq<char>) -> Option<(Seq<char>, Seq<char>)> {
    let url = trimmed(repo_url);
    let on_github = match without_prefix(url, "https://github.com/"@) {
        Some(path) => owner_and_name(path),
        None => None,
    };
    if on_github is Some {
        on_github
    } else if !contains_text(url, "://"@) && has_char(url, '/') {
        owner_and_name(url)
    } else {
        None
    }
}

/// The address of an endpoint of a repository on the release-hosting API.
pub open spec fn api_url(owner: Seq<char>, repo: Seq<char>, endpoint: Seq<char>) -> Seq<char> {
    "https://api.github.com/repos/"@ + owner + "/"@ + repo + "/"@ + endpoint
}

/// The address that lists the releases of a repository.
pub open spec fn releases_url(owner: Seq<char>, repo: Seq<char>) -> Seq<char> {
    api_url(owner, repo, "releases"@)
}

/// The address of the release of a repository that bears a tag.
pub open spec fn release_tag_url(owner: Seq<char>, repo: Seq<char>, tag: Seq<char>) -> Seq<char> {
    "https://api.github.com/repos/"@ + owner + "/"@ + repo + "/releases/tags/"@ + tag
}

/// The download address is returned untouched when no mirror is configured or
/// the mirror is the origin host itself.
pub open spec fn mirror_is_identity(mirror: Seq<char>) -> bool {
    mirror.len() == 0 || mirror == "github.com"@
}

/// The address an asset is fetched from once the mirror host is applied: the
/// origin address itself, or the origin address embedded verbatim as the path
/// of an `https` address on the mirror host.
pub open spec fn mirrored_url(mirror: Seq<char>, origin_url: Seq<char>) -> Seq<char> {
    if mirror_is_identity(mirror) {
        origin_url
    } else {
        "https://"@ + mirror + "/"@ + origin_url
    }
}

/// Takes `prefix` off the start of the text, where it starts with it.
pub fn strip_prefix(v: &Vec<char>, prefix: &Vec<char>) -> (rest: Option<Vec<char>>)
    ensures
        match rest {
            Some(r) => without_prefix(v@, prefix@) == Some(r@),
            None => without_prefix(v@, prefix@) is None,
        },
{
    if starts_with(v, prefix) {
        Some(slice(v, prefix.len(), v.len()))
    } else {
        None
    }
}

/// Whether the text takes more than `limit` bytes in UTF-8.
fn longer_than(v: &Vec<char>, limit: usize) -> (longer: bool)
    requires
        limit <= 1024,
    ensures
        longer == (byte_length(v@) > limit),
{
    let mut bytes: usize = 0;
    let mut i: usize = 0;
    while i < v.len()
        invariant
            limit <= 1024,
            i <= v.len(),
            bytes == width_upto(v@, i as int),
            bytes <= limit,
        decreases v.len() - i,
    {
        let n: u32 = v[i] as u32;
        let width: usize = if n < 0x80 {
            1
        } else if n < 0x800 {
            2
        } else if n < 0x10000 {
            3
        } else {
            4
        };
        bytes = bytes + width;
        i = i + 1;
        if bytes > limit {
            proof {
                lemma_width_grows(v@, i as int, v.len() as int);
            }
            return true;
        }
    }
    false
}

/// Counting more characters never gives fewer bytes.
proof fn lemma_width_grows(s: Seq<char>, k: int, n: int)
    requires
        0 <= k <= n,
    ensures
        width_upto(s, k) <= width_upto(s, n),
    decreases n,
{
    if k < n {
        lemma_width_grows(s, k, n - 1);
    }
}

/// Whether the text can be one label of a host name.
fn is_label(part: &Vec<char>) -> (valid: bool)
    ensures
        valid == valid_label(part@),
{
    if part.len() == 0 || longer_than(part, 63) {
        return false;
    }
    let mut i: usize = 0;
    while i < part.len()
        invariant
            i <= part.len(),
            forall|j: int| 0 <= j < i ==> alphanumeric(#[trigger] part@[j]) || part@[j] == '-',
        decreases part.len() - i,
    {
        let c: char = part[i];
        if !(is_alphanumeric(c) || c == '-') {
            return false;
        }
        i = i + 1;
    }
    part[0] != '-' && part[part.len() - 1] != '-'
}

/// Whether the text can be one number of a dotted IPv4 address.
fn is_octet(part: &Vec<char>) -> (valid: bool)
    ensures
        valid == valid_octet(part@),
{
    match parse_unsigned(part, 255) {
        Some(_) => !(part.len() > 1 && part[0] == '0'),
        None => false,
    }
}

/// Whether the text is a dotted IPv4 address.
pub fn is_ipv4(addr: &str) -> (valid: bool)
    ensures
        valid == ipv4_text(addr@),
{
    let all: Vec<char> = chars_of(addr);
    ipv4_chars(&all)
}

fn ipv4_chars(addr: &Vec<char>) -> (valid: bool)
    ensures
        valid == ipv4_text(addr@),
{
    let parts: Vec<Vec<char>> = split(addr, '.');
    if parts.len() != 4 {
        return false;
    }
    let mut i: usize = 0;
    while i < 4
        invariant
            i <= 4,
            parts.len() == 4,
            texts_of(parts@) == split_of(addr@, '.'),
            forall|j: int| 0 <= j < i ==> valid_octet(#[trigger] split_of(addr@, '.')[j]),
        decreases 4 - i,
    {
        assert(texts_of(parts@)[i as int] == parts@[i as int]@);
        if !is_octet(&parts[i]) {
            return false;
        }
        i = i + 1;
    }
    true
}

/// Whether the text is a host: a dotted IPv4 address or a host name.
pub fn is_valid_domain_or_ip(domain: &str) -> (valid: bool)
    ensures
        valid == valid_host(domain@),
{
    let all: Vec<char> = chars_of(domain);
    host_chars(&all)
}

fn host_chars(domain: &Vec<char>) -> (valid: bool)
    ensures
        valid == valid_host(domain@),
{
    if longer_than(domain, 253) || domain.len() == 0 {
        return false;
    }
    if ipv4_chars(domain) {
        return true;
    }
    let parts: Vec<Vec<char>> = split(domain, '.');
    if parts.len() < 2 {
        return false;
    }
    let mut i: usize = 0;
    while i < parts.len()
        invariant
            i <= parts.len(),
            texts_of(parts@) == split_of(domain@, '.'),
            !ipv4_text(domain@),
            forall|j: int| 0 <= j < i ==> valid_label(#[trigger] split_of(domain@, '.')[j]),
        decreases parts.len() - i,
    {
        assert(texts_of(parts@)[i as int] == parts@[i as int]@);
        if !is_label(&parts[i]) {
            return false;
        }
        i = i + 1;
    }
    true
}

/// Brings a configured mirror into the form of a bare host, and replaces one
/// that is no host by the default mirror.
pub fn sanitize_mirror_domain(input: &str) -> (domain: String)
    ensures
        domain@ == sanitized_mirror(input@),
{
    let all: Vec<char> = chars_of(input);
    let text: Vec<char> = trim_class(&all, CharClass::Whitespace);
    let secure: Vec<char> = chars_of("https://");
    let plain: Vec<char> = chars_of("http://");
    let rest: Vec<char> = match strip_prefix(&text, &secure) {
        Some(rest) => rest,
        None => match strip_prefix(&text, &plain) {
            Some(rest) => rest,
            None => text,
        },
    };
    let slash: usize = find(&rest, '/');
    let host: Vec<char> = slice(&rest, 0, slash);
    if host.len() == 0 || find(&host, ' ') < host.len() || find(&host, '\t') < host.len()
        || !host_chars(&host) {
        return String::from_str("gh-proxy.com");
    }
    string_of(&host)
}

/// The mirror host to use for a configured mirror: none where none is
/// configured, else a host.
pub fn resolve_mirror(input: &str) -> (mirror: String)
    ensures
        mirror@ == resolved_mirror(input@),
{
    let all: Vec<char> = chars_of(input);
    let text: Vec<char> = trim_class(&all, CharClass::Whitespace);
    if text.len() == 0 {
        String::new()
    } else {
        sanitize_mirror_domain(input)
    }
}

/// Brings a configured repository into the form of an address.
pub fn sanitize_repo_url(input: &str) -> (url: String)
    ensures
        url@ == sanitized_repo(input@),
{
    let all: Vec<char> = chars_of(input);
    let text: Vec<char> = trim_class(&all, CharClass::Whitespace);
    let slashes: usize = count_trailing(&text, CharClass::Is('/'));
    let url: Vec<char> = slice(&text, 0, text.len() - slashes);
    let scheme: Vec<char> = chars_of("http");
    let origin: Vec<char> = chars_of("github.com");
    if !starts_with(&url, &scheme) && find(&url, '/') < url.len() && !contains(&url, &origin) {
        let root: Vec<char> = chars_of("https://github.com/");
        let full: Vec<char> = join(&root, &url);
        return string_of(&full);
    }
    string_of(&url)
}

/// The first two pieces of a path, where there are two and neither is empty.
fn owner_and_name_of(path: &Vec<char>) -> (pair: Option<(String, String)>)
    ensures
        match pair {
            Some((owner, name)) => owner_and_name(path@) == Some((owner@, name@)),
            None => owner_and_name(path@) is None,
        },
{
    let parts: Vec<Vec<char>> = split(path, '/');
    proof {
        if parts.len() >= 2 {
            assert(texts_of(parts@)[0] == parts@[0]@);
            assert(texts_of(parts@)[1] == parts@[1]@);
        }
    }
    if parts.len() >= 2 && parts[0].len() > 0 && parts[1].len() > 0 {
        Some((string_of(&parts[0]), string_of(&parts[1])))
    } else {
        None
    }
}

/// Reads the owner and the name of a repository out of its address or path.
pub fn parse_github_repo(repo_url: &str) -> (repo: Option<(String, String)>)
    ensures
        match repo {
            Some((owner, name)) => repo_of(repo_url@) == Some((owner@, name@)),
            None => repo_of(repo_url@) is None,
        },
{
    let all: Vec<char> = chars_of(repo_url);
    let url: Vec<char> = trim_class(&all, CharClass::Whitespace);
    let root: Vec<char> = chars_of("https://github.com/");
    match strip_prefix(&url, &root) {
        Some(path) => {
            let pair: Option<(String, String)> = owner_and_name_of(&path);
            if pair.is_some() {
                return pair;
            }
        },
        None => {},
    }
    let scheme_mark: Vec<char> = chars_of("://");
    if !contains(&url, &scheme_mark) && find(&url, '/') < url.len() {
        return owner_and_name_of(&url);
    }
    None
}

/// Builds the address of an endpoint of a repository on the release-hosting API.
pub fn build_github_api_url(owner: &str, repo: &str, endpoint: &str) -> (url: String)
    ensures
        url@ == api_url(owner@, repo@, endpoint@),
{
    let mut url: String = String::from_str("https://api.github.com/repos/");
    url.append(owner);
    url.append("/");
    url.append(repo);
    url.append("/");
    url.append(endpoint);
    url
}

/// Builds the address that lists the releases of a repository.
pub fn build_releases_api_url(owner: &str, repo: &str) -> (url: String)
    ensures
        url@ == releases_url(owner@, repo@),
{
    build_github_api_url(owner, repo, "releases")
}

/// Builds the address of the release of a repository that bears a tag.
pub fn build_releases_tag_api_url(owner: &str, repo: &str, tag: &str) -> (url: String)
    ensures
        url@ == release_tag_url(owner@, repo@, tag@),
{
    let mut url: String = String::from_str("https://api.github.com/repos/");
    url.append(owner);
    url.append("/");
    url.append(repo);
    url.append("/releases/tags/");
    url.append(tag);
    url
}

/// Applies the mirror host to the address of an asset. Addresses of API
/// queries are never passed through here.
pub fn apply_mirror_to_download_url(mirror: &str, origin_url: &str) -> (url: String)
    ensures
        url@ == mirrored_url(mirror@, origin_url@),
{
    if mirror.unicode_len() == 0 {
        return origin_url.to_owned();
    }
    let origin: &str = "github.com";
    if mirror.to_owned() == origin.to_owned() {
        return origin_url.to_owned();
    }
    let mut url: String = String::from_str("https://");
    url.append(mirror);
    url.append("/");
    url.append(origin_url);
    url
}

/// An address to which a mirror was applied is still an `https` address where
/// the origin address is one, and it ends with the origin address verbatim.
pub proof fn mirrored_url_stays_absolute(mirror: Seq<char>, origin_url: Seq<char>)
    requires
        "https://"@.is_prefix_of(origin_url),
    ensures
        "https://"@.is_prefix_of(mirrored_url(mirror, origin_url)),
        origin_url.is_suffix_of(mirrored_url(mirror, origin_url)),
{
    let scheme = "https://"@;
    let result = mirrored_url(mirror, origin_url);
    if mirror_is_identity(mirror) {
        assert(origin_url.subrange(0, origin_url.len() as int) == origin_url);
    } else {
        assert(result.subrange(0, scheme.len() as int) == scheme);
        assert(result.subrange(result.len() - origin_url.len(), result.len() as int)
            == origin_url);
    }
    assert(origin_url.is_suffix_of(result));
}

/// A mirror that was resolved is no mirror at all, or the default mirror, or a
/// host without a blank or a tab: what stands between `https://` and the
/// origin address in a mirrored address is never anything else.
pub proof fn resolved_mirror_is_a_host(input: Seq<char>)
    ensures
        ({
            let mirror = resolved_mirror(input);
            ||| mirror.len() == 0
            ||| mirror == default_mirror()
            ||| (valid_host(mirror) && !has_char(mirror, ' ') && !has_char(mirror, '\t'))
        }),
{
}

/// Without a mirror, or with the origin host as mirror, every address stays
/// as it is.
pub proof fn no_mirror_keeps_url(origin_url: Seq<char>)
    ensures
        mirrored_url(Seq::empty(), origin_url) == origin_url,
        mirrored_url("github.com"@, origin_url) == origin_url,
{
}

} // verus!
