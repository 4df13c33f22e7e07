use crate::version_choose::{is_newer, newer_than};
use vstd::prelude::*;

verus! {

/// The characters of a text that may be absent.
pub open spec fn text_of(value: Option<String>) -> Option<Seq<char>> {
    match value {
        Some(text) => Some(text@),
        None => None,
    }
}

/// A copy of a text that may be absent.
pub fn copy_text(value: &Option<String>) -> (copy: Option<String>)
    ensures
        copy == *value,
{
    match value {
        Some(text) => Some(text.clone()),
        None => None,
    }
}

/// The record of the artifact of a component that counts as installed, and
/// the form in which a candidate for installing is described.
#[derive(Debug, Clone, PartialEq, Eq)]
pub struct UpdateInfo {
    pub tag: String,
    pub file_name: String,
    pub file_size: u64,
    pub url: String,
    pub checksum: Option<String>,
    pub published_at: String,
    pub description: String,
}

/// What a record says, as plain values.
pub ghost struct UpdateInfoView {
    pub tag: Seq<char>,
    pub file_name: Seq<char>,
    pub file_size: u64,
    pub url: Seq<char>,
    pub checksum: Option<Seq<char>>,
    pub published_at: Seq<char>,
    pub description: Seq<char>,
}

impl View for UpdateInfo {
    type V = UpdateInfoView;

    open spec fn view(&self) -> UpdateInfoView {
        UpdateInfoView {
            tag: self.tag@,
            file_name: self.file_name@,
            file_size: self.file_size,
            url: self.url@,
            checksum: text_of(self.checksum),
            published_at: self.published_at@,
            description: self.description@,
        }
    }
}

impl UpdateInfo {
    /// A copy of the record, equal to it in every field.
    pub fn duplicate(&self) -> (copy: UpdateInfo)
        ensures
            copy == *self,
    {
        UpdateInfo {
            tag: self.tag.clone(),
            file_name: self.file_name.clone(),
            file_size: self.file_size,
            url: self.url.clone(),
            checksum: copy_text(&self.checksum),
            published_at: self.published_at.clone(),
            description: self.description.clone(),
        }
    }
}

/// What the updater is configured with: the repositories to follow, the
/// mirror host, the names of the files to take from the releases, the tags of
/// the releases of the two data bundles, and the session credential.
#[derive(Debug, Clone, PartialEq, Eq)]
pub struct UpdateConfig {
    pub schema_repo: String,
    pub dict_repo: String,
    pub model_repo: String,
    pub self_repo: String,
    pub mirror: String,
    pub schema_type: String,
    pub schema_key: String,
    pub schema_name: String,
    pub dict_name: String,
    pub dict_tag: String,
    pub model_tag: String,
    pub model_file_name: String,
    pub github_cookies: Option<String>,
}

/// What a configuration says, as plain values.
pub ghost struct UpdateConfigView {
    pub schema_repo: Seq<char>,
    pub dict_repo: Seq<char>,
    pub model_repo: Seq<char>,
    pub self_repo: Seq<char>,
    pub mirror: Seq<char>,
    pub schema_type: Seq<char>,
    pub schema_key: Seq<char>,
    pub schema_name: Seq<char>,
    pub dict_name: Seq<char>,
    pub dict_tag: Seq<char>,
    pub model_tag: Seq<char>,
    pub model_file_name: Seq<char>,
    pub github_cookies: Option<Seq<char>>,
}

impl View for UpdateConfig {
    type V = UpdateConfigView;

    open spec fn view(&self) -> UpdateConfigView {
        UpdateConfigView {
            schema_repo: self.schema_repo@,
            dict_repo: self.dict_repo@,
            model_repo: self.model_repo@,
            self_repo: self.self_repo@,
            mirror: self.mirror@,
            schema_type: self.schema_type@,
            schema_key: self.schema_key@,
            schema_name: self.schema_name@,
            dict_name: self.dict_name@,
            dict_tag: self.dict_tag@,
            model_tag: self.model_tag@,
            model_file_name: self.model_file_name@,
            github_cookies: text_of(self.github_cookies),
        }
    }
}

/// The configuration that holds where nothing else was configured: the base
/// scheme from its home repositories, fetched without a mirror and without a
/// credential.
pub open spec fn default_config() -> UpdateConfigView {
    UpdateConfigView {
        schema_repo: "amzxyz/rime_wanxiang"@,
        dict_repo: "amzxyz/rime_wanxiang"@,
        model_repo: "amzxyz/RIME-LMDG"@,
        self_repo: "Mikachu2333/rime_wanxiang_updater"@,
        mirror: ""@,
        schema_type: "base"@,
        schema_key: ""@,
        schema_name: "rime-wanxiang-base.zip"@,
        dict_name: "9-base-dicts.zip"@,
        dict_tag: "dict-nightly"@,
        model_tag: "LTS"@,
        model_file_name: "wanxiang-lts-zh-hans.gram"@,
        github_cookies: None,
    }
}

impl Default for UpdateConfig {
    fn default() -> (config: UpdateConfig)
        ensures
            config@ == default_config(),
    {
        UpdateConfig {
            schema_repo: String::from_str("amzxyz/rime_wanxiang"),
            dict_repo: String::from_str("amzxyz/rime_wanxiang"),
            model_repo: String::from_str("amzxyz/RIME-LMDG"),
            self_repo: String::from_str("Mikachu2333/rime_wanxiang_updater"),
            mirror: String::from_str(""),
            schema_type: String::from_str("base"),
            schema_key: String::from_str(""),
            schema_name: String::from_str("rime-wanxiang-base.zip"),
            dict_name: String::from_str("9-base-dicts.zip"),
            dict_tag: String::from_str("dict-nightly"),
            model_tag: String::from_str("LTS"),
            model_file_name: String::from_str("wanxiang-lts-zh-hans.gram"),
            github_cookies: None,
        }
    }
}

impl UpdateConfig {
    /// A copy of the configuration, equal to it in every field.
    pub fn duplicate(&self) -> (copy: UpdateConfig)
        ensures
            copy == *self,
    {
        UpdateConfig {
            schema_repo: self.schema_repo.clone(),
            dict_repo: self.dict_repo.clone(),
            model_repo: self.model_repo.clone(),
            self_repo: self.self_repo.clone(),
            mirror: self.mirror.clone(),
            schema_type: self.schema_type.clone(),
            schema_key: self.schema_key.clone(),
            schema_name: self.schema_name.clone(),
            dict_name: self.dict_name.clone(),
            dict_tag: self.dict_tag.clone(),
            model_tag: self.model_tag.clone(),
            model_file_name: self.model_file_name.clone(),
            github_cookies: copy_text(&self.github_cookies),
        }
    }
}

/// Where the host application and the updater keep their files: the user's
/// data directory, the directory of the host program, the configuration
/// file, and the two tools that the updater runs.
#[derive(Debug, Clone, PartialEq, Eq)]
pub struct UserPath {
    pub user: String,
    pub weasel: String,
    pub config: String,
    pub curl: String,
    pub zip: String,
}

/// One downloadable file of a release.
#[derive(Debug, Clone, PartialEq, Eq)]
pub struct GitHubAsset {
    pub name: String,
    pub size: u64,
    pub browser_download_url: String,
    pub checksum: Option<String>,
}

/// A release as the hosting API describes it.
#[derive(Debug, Clone, PartialEq, Eq)]
pub struct GitHubRelease {
    pub tag_name: String,
    pub published_at: String,
    pub body: Option<String>,
    pub draft: bool,
    pub prerelease: bool,
    pub assets: Vec<GitHubAsset>,
}

/// An asset as plain values.
pub ghost struct AssetView {
    pub name: Seq<char>,
    pub size: u64,
    pub browser_download_url: Seq<char>,
    pub checksum: Option<Seq<char>>,
}

/// A release as plain values.
pub ghost struct ReleaseView {
    pub tag_name: Seq<char>,
    pub published_at: Seq<char>,
    pub body: Option<Seq<char>>,
    pub draft: bool,
    pub prerelease: bool,
    pub assets: Seq<AssetView>,
}

impl View for GitHubAsset {
    type V = AssetView;

    open spec fn view(&self) -> AssetView {
        AssetView {
            name: self.name@,
            size: self.size,
            browser_download_url: self.browser_download_url@,
            checksum: text_of(self.checksum),
        }
    }
}

/// The assets of a list as plain values.
pub open spec fn assets_view(assets: Seq<GitHubAsset>) -> Seq<AssetView> {
    Seq::new(assets.len(), |i: int| assets[i]@)
}

impl View for GitHubRelease {
    type V = ReleaseView;

    open spec fn view(&self) -> ReleaseView {
        ReleaseView {
            tag_name: self.tag_name@,
            published_at: self.published_at@,
            body: text_of(self.body),
            draft: self.draft,
            prerelease: self.prerelease,
            assets: assets_view(self.assets@),
        }
    }
}

/// The releases of a list as plain values.
pub open spec fn releases_view(releases: Seq<GitHubRelease>) -> Seq<ReleaseView> {
    Seq::new(releases.len(), |i: int| releases[i]@)
}

/// The payload with which the hosting API rejects a query.
#[derive(Debug, Clone, PartialEq, Eq)]
pub struct GitHubApiError {
    pub message: String,
    pub documentation_url: Option<String>,
}

/// Whether the tag `remote_info` stands for a strictly greater version than
/// the tag `local_info`.
pub fn compare_version(remote_info: String, local_info: String) -> (newer: bool)
    ensures
        newer == newer_than(remote_info@, local_info@),
{
    is_newer(remote_info.as_str(), local_info.as_str())
}

} // verus!
