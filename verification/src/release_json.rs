use crate::json::{
    empty_text_is_empty, flag_at, flag_in, item_pointer, json_document, json_values, length_at, length_in,
    member_pointer, number_at, number_in, parse_json, pointer_to, pointer_to_item, text_at,
    text_in, FieldView,
};
use crate::types::{
    assets_view, releases_view, text_of, AssetView, GitHubApiError, GitHubAsset, GitHubRelease,
    ReleaseView,
};
use vstd::prelude::*;

verus! {

/// The asset that the object at a place of a document describes: its name,
/// its size and its address, which it must state, and its checksum under
/// `sha3-256` where it states one. `None` where one of the three is missing.
pub open spec fn asset_in(values: Map<Seq<char>, FieldView>, base: Seq<char>) -> Option<
    AssetView,
> {
    let name = text_in(values, member_pointer(base, "name"@));
    let size = number_in(values, member_pointer(base, "size"@));
    let url = text_in(values, member_pointer(base, "browser_download_url"@));
    if name is Some && size is Some && url is Some {
        Some(
            AssetView {
                name: name->0,
                size: size->0,
                browser_download_url: url->0,
                checksum: text_in(values, member_pointer(base, "sha3-256"@)),
            },
        )
    } else {
        None
    }
}

/// The assets that the first `count` items of the list at a place describe,
/// in their order. `None` where one of the items describes none.
pub open spec fn assets_in(values: Map<Seq<char>, FieldView>, base: Seq<char>, count: nat)
    -> Option<Seq<AssetView>> {
    if forall|i: nat| i < count ==> (#[trigger] asset_in(values, item_pointer(base, i))) is Some {
        Some(Seq::new(count, |i: int| asset_in(values, item_pointer(base, i as nat))->0))
    } else {
        None
    }
}

/// The release that the object at a place of a document describes. It must
/// state its tag and the list of its assets, each of which must describe an
/// asset. The date is empty and there are no notes where it states none, and
/// it is neither draft nor prerelease unless it says so.
pub open spec fn release_in(values: Map<Seq<char>, FieldView>, base: Seq<char>) -> Option<
    ReleaseView,
> {
    let tag = text_in(values, member_pointer(base, "tag_name"@));
    let list = member_pointer(base, "assets"@);
    let count = length_in(values, list);
    if tag is Some && count is Some && assets_in(values, list, count->0) is Some {
        Some(
            ReleaseView {
                tag_name: tag->0,
                published_at: match text_in(values, member_pointer(base, "published_at"@)) {
                    Some(date) => date,
                    None => Seq::empty(),
                },
                body: text_in(values, member_pointer(base, "body"@)),
                draft: flag_in(values, member_pointer(base, "draft"@)) == Some(true),
                prerelease: flag_in(values, member_pointer(base, "prerelease"@)) == Some(true),
                assets: assets_in(values, list, count->0)->0,
            },
        )
    } else {
        None
    }
}

/// The releases that the first `count` items of the list at the root of a
/// document describe. `None` where one of the items describes none.
pub open spec fn releases_in(values: Map<Seq<char>, FieldView>, count: nat) -> Option<
    Seq<ReleaseView>,
> {
    if forall|i: nat|
        i < count ==> (#[trigger] release_in(values, item_pointer(Seq::empty(), i))) is Some {
        Some(
            Seq::new(count, |i: int| release_in(values, item_pointer(Seq::empty(), i as nat))->0),
        )
    } else {
        None
    }
}

/// The release that a text describes: the text is a JSON document whose root
/// describes a release.
pub open spec fn release_of_text(text: Seq<char>) -> Option<ReleaseView> {
    match json_document(text) {
        Some(values) => release_in(values, Seq::empty()),
        None => None,
    }
}

/// The releases that a text describes: the text is a JSON document whose root
/// is a list, each item of which describes a release.
pub open spec fn releases_of_text(text: Seq<char>) -> Option<Seq<ReleaseView>> {
    match json_document(text) {
        Some(values) => match length_in(values, Seq::empty()) {
            Some(count) => releases_in(values, count),
            None => None,
        },
        None => None,
    }
}

/// The message of a rejection: what the text, as a JSON document, states as
/// its `message`; empty where it states none.
pub open spec fn message_of_text(text: Seq<char>) -> Seq<char> {
    match json_document(text) {
        Some(values) => match text_in(values, member_pointer(Seq::empty(), "message"@)) {
            Some(message) => message,
            None => Seq::empty(),
        },
        None => Seq::empty(),
    }
}

/// The address of the documentation that a rejection names: what the text, as
/// a JSON document, states as its `documentation_url`, if it states one.
pub open spec fn documentation_of_text(text: Seq<char>) -> Option<Seq<char>> {
    match json_document(text) {
        Some(values) => text_in(values, member_pointer(Seq::empty(), "documentation_url"@)),
        None => None,
    }
}

/// The asset that the object at a place of a document describes.
fn asset_at(document: &serde_json::Value, base: &str) -> (asset: Option<GitHubAsset>)
    ensures
        match asset {
            Some(found) => asset_in(json_values(*document), base@) == Some(found@),
            None => asset_in(json_values(*document), base@) is None,
        },
{
    let name: String = match text_at(document, pointer_to(base, "name").as_str()) {
        Some(text) => text,
        None => { return None; },
    };
    let size: u64 = match number_at(document, pointer_to(base, "size").as_str()) {
        Some(number) => number,
        None => { return None; },
    };
    let browser_download_url: String = match text_at(
        document,
        pointer_to(base, "browser_download_url").as_str(),
    ) {
        Some(text) => text,
        None => { return None; },
    };
    let checksum: Option<String> = text_at(document, pointer_to(base, "sha3-256").as_str());
    Some(GitHubAsset { name, size, browser_download_url, checksum })
}

/// The release that the object at a place of a document describes.
fn release_at(document: &serde_json::Value, base: &str) -> (release: Option<GitHubRelease>)
    ensures
        match release {
            Some(found) => release_in(json_values(*document), base@) == Some(found@),
            None => release_in(json_values(*document), base@) is None,
        },
{
    let ghost values = json_values(*document);
    let tag_name: String = match text_at(document, pointer_to(base, "tag_name").as_str()) {
        Some(text) => text,
        None => { return None; },
    };
    let list: String = pointer_to(base, "assets");
    let count: usize = match length_at(document, list.as_str()) {
        Some(n) => n,
        None => { return None; },
    };
    let mut assets: Vec<GitHubAsset> = Vec::new();
    let mut i: usize = 0;
    while i < count
        invariant
            i <= count,
            values == json_values(*document),
            list@ == member_pointer(base@, "assets"@),
            length_in(values, list@) == Some(count as nat),
            assets.len() == i,
            forall|j: nat|
                j < i ==> (#[trigger] asset_in(values, item_pointer(list@, j))) == Some(
                    assets@[j as int]@,
                ),
        decreases count - i,
    {
        match asset_at(document, pointer_to_item(list.as_str(), i).as_str()) {
            Some(asset) => {
                assets.push(asset);
            },
            None => {
                assert(asset_in(values, item_pointer(list@, i as nat)) is None);
                return None;
            },
        }
        i = i + 1;
    }
    proof {
        assert(assets_in(values, list@, count as nat) is Some);
        assert(assets_in(values, list@, count as nat)->0 =~= assets_view(assets@));
    }
    let published_at: String = match text_at(
        document,
        pointer_to(base, "published_at").as_str(),
    ) {
        Some(date) => date,
        None => String::new(),
    };
    let body: Option<String> = text_at(document, pointer_to(base, "body").as_str());
    let draft: bool = match flag_at(document, pointer_to(base, "draft").as_str()) {
        Some(flag) => flag,
        None => false,
    };
    let prerelease: bool = match flag_at(document, pointer_to(base, "prerelease").as_str()) {
        Some(flag) => flag,
        None => false,
    };
    Some(GitHubRelease { tag_name, published_at, body, draft, prerelease, assets })
}

/// Reads one release out of the body of an answer. `None` where the body is
/// no JSON or describes no release.
pub fn parse_release(body: &str) -> (release: Option<GitHubRelease>)
    ensures
        match release {
            Some(found) => release_of_text(body@) == Some(found@),
            None => release_of_text(body@) is None,
        },
{
    proof {
        empty_text_is_empty();
    }
    match parse_json(body) {
        Some(document) => release_at(&document, ""),
        None => None,
    }
}

/// Reads a list of releases out of the body of an answer. `None` where the
/// body is no JSON, is no list, or has an item that describes no release.
pub fn parse_releases(body: &str) -> (releases: Option<Vec<GitHubRelease>>)
    ensures
        match releases {
            Some(list) => releases_of_text(body@) == Some(releases_view(list@)),
            None => releases_of_text(body@) is None,
        },
{
    proof {
        empty_text_is_empty();
    }
    let document: serde_json::Value = match parse_json(body) {
        Some(document) => document,
        None => { return None; },
    };
    let ghost values = json_values(document);
    let count: usize = match length_at(&document, "") {
        Some(n) => n,
        None => { return None; },
    };
    let mut releases: Vec<GitHubRelease> = Vec::new();
    let mut i: usize = 0;
    while i < count
        invariant
            i <= count,
            values == json_values(document),
            json_document(body@) == Some(values),
            length_in(values, Seq::empty()) == Some(count as nat),
            ""@ == Seq::<char>::empty(),
            releases.len() == i,
            forall|j: nat|
                j < i ==> (#[trigger] release_in(values, item_pointer(Seq::empty(), j))) == Some(
                    releases@[j as int]@,
                ),
        decreases count - i,
    {
        match release_at(&document, pointer_to_item("", i).as_str()) {
            Some(release) => {
                releases.push(release);
            },
            None => {
                assert(release_in(values, item_pointer(Seq::empty(), i as nat)) is None);
                return None;
            },
        }
        i = i + 1;
    }
    proof {
        assert(releases_in(values, count as nat) is Some);
        assert(releases_in(values, count as nat)->0 =~= releases_view(releases@));
    }
    Some(releases)
}

/// Reads the payload of a rejection out of the body of an answer: its
/// message, empty where the body states none, and the address of the
/// documentation where it states one.
pub fn parse_rejection(body: &str) -> (rejection: GitHubApiError)
    ensures
        rejection.message@ == message_of_text(body@),
        text_of(rejection.documentation_url) == documentation_of_text(body@),
{
    proof {
        empty_text_is_empty();
    }
    match parse_json(body) {
        Some(document) => GitHubApiError {
            message: match text_at(&document, pointer_to("", "message").as_str()) {
                Some(message) => message,
                None => String::new(),
            },
            documentation_url: text_at(&document, pointer_to("", "documentation_url").as_str()),
        },
        None => GitHubApiError { message: String::new(), documentation_url: None },
    }
}

} // verus!
