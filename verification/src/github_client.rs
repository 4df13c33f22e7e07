use crate::asset_match::{
    match_first, matched_by, matched_by_in_range, names_of, rules_of, words_of, MatchRule,
    RuleView,
};
use crate::text::{
    chars_of, contains, contains_text, find, has_char, is_numeric, lowercase_of, numeric, slice,
    to_lowercase,
};
use crate::release_json::{
    message_of_text, parse_rejection, parse_release, parse_releases, release_of_text,
    releases_of_text,
};
use crate::types::{
    copy_text, releases_view, text_of, GitHubAsset, GitHubRelease, ReleaseView, UpdateConfig,
    UpdateConfigView, UpdateInfo, UpdateInfoView,
};
use crate::url_utils::{
    api_url, apply_mirror_to_download_url, build_github_api_url, build_releases_api_url,
    build_releases_tag_api_url, mirrored_url, parse_github_repo, release_tag_url, releases_url,
    repo_of, resolve_mirror, resolved_mirror, sanitize_repo_url, sanitized_repo,
};
use crate::version_choose::{is_newer, newer_than};
use vstd::prelude::*;

verus! {

/// The parts of the managed application that are updated independently.
#[derive(Clone, Copy, Debug, PartialEq, Eq, Hash, Structural)]
pub enum ComponentKind {
    /// The input scheme.
    Scheme,
    /// The dictionary bundle.
    Dictionary,
    /// The language model.
    Model,
    /// The updater program itself.
    SelfProgram,
}

/// How the release of a component is selected.
#[derive(Debug, Clone, PartialEq, Eq)]
pub enum ReleaseSelection {
    /// The release that bears the given tag.
    ExplicitTag(String),
    /// The newest release.
    Latest,
}

/// A release selection as plain values.
pub ghost enum SelectionView {
    ExplicitTag(Seq<char>),
    Latest,
}

impl View for ReleaseSelection {
    type V = SelectionView;

    open spec fn view(&self) -> SelectionView {
        match self {
            ReleaseSelection::ExplicitTag(tag) => SelectionView::ExplicitTag(tag@),
            ReleaseSelection::Latest => SelectionView::Latest,
        }
    }
}

/// A component with what is needed to look for its updates: the repository
/// that publishes it, how its release is selected, and the rules that pick its
/// asset, in order of preference.
#[derive(Debug, Clone, PartialEq, Eq)]
pub struct Component {
    pub kind: ComponentKind,
    pub repo: String,
    pub selection: ReleaseSelection,
    pub rules: Vec<MatchRule>,
}

/// A component as plain values.
pub ghost struct ComponentView {
    pub kind: ComponentKind,
    pub repo: Seq<char>,
    pub selection: SelectionView,
    pub rules: Seq<RuleView>,
}

impl View for Component {
    type V = ComponentView;

    open spec fn view(&self) -> ComponentView {
        ComponentView {
            kind: self.kind,
            repo: self.repo@,
            selection: self.selection@,
            rules: rules_of(self.rules@),
        }
    }
}

/// How much of the releases of a repository a query asks for.
#[derive(Clone, Copy, Debug, PartialEq, Eq, Structural)]
pub enum QueryScope {
    /// The newest release alone.
    Latest,
    /// The release that bears a given tag.
    ByTag,
    /// The whole list of releases.
    All,
}

/// One query to the release-hosting API.
#[derive(Debug, Clone, PartialEq, Eq)]
pub struct ReleaseQuery {
    pub url: String,
    pub scope: QueryScope,
}

/// Why the releases of a component could not be had.
#[derive(Debug, Clone, PartialEq, Eq)]
pub enum ReleaseError {
    /// The request did not get through.
    Transport,
    /// The hosting API answered with a rejection, which carries this message.
    ApiRejected(String),
    /// The answer could not be read as what was asked for.
    MalformedResponse,
    /// The repository of the component cannot be told from what is
    /// configured, so that there is nowhere to ask.
    UnknownRepository,
}

/// The repository that publishes a component.
pub open spec fn component_repo(config: UpdateConfigView, kind: ComponentKind) -> Seq<char> {
    match kind {
        ComponentKind::Scheme => config.schema_repo,
        ComponentKind::Dictionary => config.dict_repo,
        ComponentKind::Model => config.model_repo,
        ComponentKind::SelfProgram => config.self_repo,
    }
}

/// How the release of a component is selected: the two data bundles come
/// from the release with the configured tag, the scheme and the program from
/// the newest release.
pub open spec fn component_selection(config: UpdateConfigView, kind: ComponentKind)
    -> SelectionView {
    match kind {
        ComponentKind::Scheme => SelectionView::Latest,
        ComponentKind::Dictionary => SelectionView::ExplicitTag(config.dict_tag),
        ComponentKind::Model => SelectionView::ExplicitTag(config.model_tag),
        ComponentKind::SelfProgram => SelectionView::Latest,
    }
}

/// The rules that pick the asset of a component, in order of preference: the
/// configured name first, then what the name of such an asset usually holds.
pub open spec fn component_rules(config: UpdateConfigView, kind: ComponentKind) -> Seq<RuleView> {
    match kind {
        ComponentKind::Scheme => seq![
            RuleView::ExactName(config.schema_name),
            RuleView::ContentHeuristic(
                seq!["scheme"@, "\u{65b9}\u{6848}"@, lowercase_of(config.schema_name)],
                None,
            ),
        ],
        ComponentKind::Dictionary => seq![
            RuleView::ExactName(config.dict_name),
            RuleView::ContentHeuristic(
                seq!["dict"@, "\u{8bcd}\u{5e93}"@, "dictionary"@],
                None,
            ),
        ],
        ComponentKind::Model => seq![
            RuleView::ExactName(config.model_file_name),
            RuleView::ContentHeuristic(seq![".gram"@], None),
        ],
        ComponentKind::SelfProgram => seq![
            RuleView::ContentHeuristic(Seq::empty(), Some(".exe"@)),
        ],
    }
}

/// The component of a kind under a configuration.
pub open spec fn component_of(config: UpdateConfigView, kind: ComponentKind) -> ComponentView {
    ComponentView {
        kind,
        repo: component_repo(config, kind),
        selection: component_selection(config, kind),
        rules: component_rules(config, kind),
    }
}

/// How much a query for a component asks for: the release with the tag where
/// one is given; for the newest release of the scheme the whole list, from
/// which the release is then selected; else the newest release alone.
pub open spec fn query_scope(component: ComponentView) -> QueryScope {
    match component.selection {
        SelectionView::ExplicitTag(_) => QueryScope::ByTag,
        SelectionView::Latest => if component.kind == ComponentKind::Scheme {
            QueryScope::All
        } else {
            QueryScope::Latest
        },
    }
}

/// The address of the query for a component, or `None` where its repository
/// cannot be told from what is configured.
pub open spec fn query_url(component: ComponentView) -> Option<Seq<char>> {
    match repo_of(sanitized_repo(component.repo)) {
        Some((owner, name)) => Some(
            match component.selection {
                SelectionView::ExplicitTag(tag) => release_tag_url(owner, name, tag),
                SelectionView::Latest => if component.kind == ComponentKind::Scheme {
                    releases_url(owner, name)
                } else {
                    api_url(owner, name, "releases/latest"@)
                },
            },
        ),
        None => None,
    }
}

/// The arguments of the transfer tool for one query to the API: quiet,
/// following redirections, at most 30 seconds, with the two fixed headers
/// that name the wanted format and the client, the credential as a cookie
/// where one is configured and not empty, and the address last.
pub open spec fn request_arguments_of(credential: Option<Seq<char>>, url: Seq<char>) -> Seq<
    Seq<char>,
> {
    let fixed = seq![
        "-s"@,
        "-L"@,
        "--max-time"@,
        "30"@,
        "-H"@,
        "Accept: application/vnd.github.v3+json"@,
        "-H"@,
        "User-Agent: rime_wanxiang_updater"@,
    ];
    match credential {
        Some(cookie) => if cookie.len() > 0 {
            fixed + seq!["-H"@, "Cookie: "@ + cookie, url]
        } else {
            fixed + seq![url]
        },
        None => fixed + seq![url],
    }
}

/// Whether the body of an answer is a rejection by the API: it names both a
/// message and the address of the documentation.
pub open spec fn is_rejection(body: Seq<char>) -> bool {
    contains_text(body, "\"message\""@) && contains_text(body, "\"documentation_url\""@)
}

/// Whether a text holds a character that Unicode classes as a number.
pub open spec fn holds_number(s: Seq<char>) -> bool {
    exists|i: int| 0 <= i < s.len() && numeric(#[trigger] s[i])
}

/// Whether a tag has the form of a version: a `v`, then text that holds a
/// number character and a `.`.
pub open spec fn version_tag(tag: Seq<char>) -> bool {
    &&& tag.len() > 1
    &&& tag[0] == 'v'
    &&& holds_number(tag.subrange(1, tag.len() as int))
    &&& has_char(tag.subrange(1, tag.len() as int), '.')
}

/// Whether a release can be offered for a component. A release that was asked
/// for by its tag always can. As the newest release counts only one that is
/// neither a draft nor a prerelease and, for the scheme, bears a version tag.
pub open spec fn release_counts(component: ComponentView, release: GitHubRelease) -> bool {
    match component.selection {
        SelectionView::ExplicitTag(_) => true,
        SelectionView::Latest => !release.draft && !release.prerelease && (component.kind
            == ComponentKind::Scheme ==> version_tag(release.tag_name@)),
    }
}

/// The index of the first release at or after `from` that can be offered.
pub open spec fn selected_release(
    component: ComponentView,
    releases: Seq<GitHubRelease>,
    from: int,
) -> Option<int>
    decreases releases.len() - from,
{
    if from < 0 || from >= releases.len() {
        None
    } else if release_counts(component, releases[from]) {
        Some(from)
    } else {
        selected_release(component, releases, from + 1)
    }
}

/// The asset that the rules of a component pick among the assets of a
/// release, if any.
pub open spec fn picked_asset(
    config: UpdateConfigView,
    kind: ComponentKind,
    assets: Seq<GitHubAsset>,
) -> Option<GitHubAsset> {
    match matched_by(names_of(assets), component_rules(config, kind), 0) {
        Some(i) => Some(assets[i]),
        None => None,
    }
}

/// The record that describes an asset of a release as a candidate: the tag,
/// date and notes of the release, the name, size and checksum of the asset,
/// and the address of the asset with the mirror applied.
pub open spec fn described(mirror: Seq<char>, release: GitHubRelease, asset: GitHubAsset)
    -> UpdateInfoView {
    UpdateInfoView {
        tag: release.tag_name@,
        file_name: asset.name@,
        file_size: asset.size,
        url: mirrored_url(mirror, asset.browser_download_url@),
        checksum: text_of(asset.checksum),
        published_at: release.published_at@,
        description: match release.body {
            Some(notes) => notes@,
            None => Seq::empty(),
        },
    }
}

/// The candidate that a release offers for a component: the asset that the
/// rules of the component pick, described as a record. There is none where
/// the release cannot be offered or no asset matches; for the program itself
/// there is none either unless the tag of the release stands for a version
/// strictly greater than the running one.
pub open spec fn offer_of(
    component: ComponentView,
    mirror: Seq<char>,
    release: GitHubRelease,
    running: Seq<char>,
) -> Option<UpdateInfoView> {
    if !release_counts(component, release) {
        None
    } else if component.kind == ComponentKind::SelfProgram && !newer_than(
        release.tag_name@,
        running,
    ) {
        None
    } else {
        match matched_by(names_of(release.assets@), component.rules, 0) {
            Some(i) => Some(described(mirror, release, release.assets@[i])),
            None => None,
        }
    }
}

/// The candidate that a list of releases offers for a component: that of the
/// first release of the list that can be offered.
pub open spec fn candidate_of(
    component: ComponentView,
    mirror: Seq<char>,
    releases: Seq<GitHubRelease>,
    running: Seq<char>,
) -> Option<UpdateInfoView> {
    match selected_release(component, releases, 0) {
        Some(i) => offer_of(component, mirror, releases[i], running),
        None => None,
    }
}

/// Looks up releases and picks the asset of each component.
#[derive(Debug, Clone, PartialEq, Eq)]
pub struct GitHubClient {
    pub curl_path: String,
    pub config: UpdateConfig,
}

/// Whether the tag has the form of a version.
fn is_version_tag(tag: &str) -> (versioned: bool)
    ensures
        versioned == version_tag(tag@),
{
    let all: Vec<char> = chars_of(tag);
    if all.len() <= 1 || all[0] != 'v' {
        return false;
    }
    let rest: Vec<char> = slice(&all, 1, all.len());
    let mut i: usize = 0;
    let mut number: bool = false;
    while i < rest.len() && !number
        invariant
            i <= rest.len(),
            number ==> holds_number(rest@),
            !number ==> forall|j: int| 0 <= j < i ==> !numeric(#[trigger] rest@[j]),
        decreases rest.len() - i + (if number { 0int } else { 1int }),
    {
        if is_numeric(rest[i]) {
            number = true;
        } else {
            i = i + 1;
        }
    }
    number && find(&rest, '.') < rest.len()
}

/// Whether a release can be offered for a component.
fn counts(component: &Component, release: &GitHubRelease) -> (offered: bool)
    ensures
        offered == release_counts(component@, *release),
{
    match &component.selection {
        ReleaseSelection::ExplicitTag(_) => true,
        ReleaseSelection::Latest => {
            if release.draft || release.prerelease {
                false
            } else {
                match component.kind {
                    ComponentKind::Scheme => is_version_tag(release.tag_name.as_str()),
                    _ => true,
                }
            }
        },
    }
}

impl GitHubClient {
    /// A client that runs the transfer tool at `curl_path` under `config`,
    /// with the configured mirror resolved to a host.
    pub fn new(curl_path: &str, config: UpdateConfig) -> (client: GitHubClient)
        ensures
            client.curl_path@ == curl_path@,
            client.config@ == (UpdateConfigView {
                mirror: resolved_mirror(config.mirror@),
                ..config@
            }),
    {
        let mirror: String = resolve_mirror(config.mirror.as_str());
        GitHubClient {
            curl_path: curl_path.to_owned(),
            config: UpdateConfig {
                schema_repo: config.schema_repo,
                dict_repo: config.dict_repo,
                model_repo: config.model_repo,
                self_repo: config.self_repo,
                mirror,
                schema_type: config.schema_type,
                schema_key: config.schema_key,
                schema_name: config.schema_name,
                dict_name: config.dict_name,
                dict_tag: config.dict_tag,
                model_tag: config.model_tag,
                model_file_name: config.model_file_name,
                github_cookies: config.github_cookies,
            },
        }
    }

    /// The component of a kind, as the configuration describes it.
    pub fn component(&self, kind: ComponentKind) -> (component: Component)
        ensures
            component@ == component_of(self.config@, kind),
    {
        let config: &UpdateConfig = &self.config;
        let component: Component = match kind {
            ComponentKind::Scheme => {
                let lower: String = to_lowercase(config.schema_name.as_str());
                let keywords: Vec<String> = vec![
                    String::from_str("scheme"),
                    String::from_str("\u{65b9}\u{6848}"),
                    lower,
                ];
                assert(words_of(keywords@) == seq![
                    "scheme"@,
                    "\u{65b9}\u{6848}"@,
                    lowercase_of(config.schema_name@),
                ]);
                Component {
                    kind,
                    repo: config.schema_repo.clone(),
                    selection: ReleaseSelection::Latest,
                    rules: vec![
                        MatchRule::ExactName(config.schema_name.clone()),
                        MatchRule::ContentHeuristic(keywords, None),
                    ],
                }
            },
            ComponentKind::Dictionary => {
                let keywords: Vec<String> = vec![
                    String::from_str("dict"),
                    String::from_str("\u{8bcd}\u{5e93}"),
                    String::from_str("dictionary"),
                ];
                assert(words_of(keywords@) == seq![
                    "dict"@,
                    "\u{8bcd}\u{5e93}"@,
                    "dictionary"@,
                ]);
                Component {
                    kind,
                    repo: config.dict_repo.clone(),
                    selection: ReleaseSelection::ExplicitTag(config.dict_tag.clone()),
                    rules: vec![
                        MatchRule::ExactName(config.dict_name.clone()),
                        MatchRule::ContentHeuristic(keywords, None),
                    ],
                }
            },
            ComponentKind::Model => {
                let keywords: Vec<String> = vec![String::from_str(".gram")];
                assert(words_of(keywords@) == seq![".gram"@]);
                Component {
                    kind,
                    repo: config.model_repo.clone(),
                    selection: ReleaseSelection::ExplicitTag(config.model_tag.clone()),
                    rules: vec![
                        MatchRule::ExactName(config.model_file_name.clone()),
                        MatchRule::ContentHeuristic(keywords, None),
                    ],
                }
            },
            ComponentKind::SelfProgram => {
                let keywords: Vec<String> = Vec::new();
                assert(words_of(keywords@) == Seq::<Seq<char>>::empty());
                Component {
                    kind,
                    repo: config.self_repo.clone(),
                    selection: ReleaseSelection::Latest,
                    rules: vec![
                        MatchRule::ContentHeuristic(keywords, Some(String::from_str(".exe"))),
                    ],
                }
            },
        };
        assert(rules_of(component.rules@) == component_rules(self.config@, kind));
        component
    }

    /// The query that fetches the releases of a component: one request, to
    /// the API itself whatever mirror is configured. `None` where the
    /// repository of the component cannot be told from what is configured.
    pub fn release_query(&self, kind: ComponentKind) -> (query: Option<ReleaseQuery>)
        ensures
            match query {
                Some(q) => query_url(component_of(self.config@, kind)) == Some(q.url@) && q.scope
                    == query_scope(component_of(self.config@, kind)),
                None => query_url(component_of(self.config@, kind)) is None,
            },
    {
        let component: Component = self.component(kind);
        let address: String = sanitize_repo_url(component.repo.as_str());
        match parse_github_repo(address.as_str()) {
            Some((owner, name)) => {
                let query: ReleaseQuery = match &component.selection {
                    ReleaseSelection::ExplicitTag(tag) => ReleaseQuery {
                        url: build_releases_tag_api_url(
                            owner.as_str(),
                            name.as_str(),
                            tag.as_str(),
                        ),
                        scope: QueryScope::ByTag,
                    },
                    ReleaseSelection::Latest => match kind {
                        ComponentKind::Scheme => ReleaseQuery {
                            url: build_releases_api_url(owner.as_str(), name.as_str()),
                            scope: QueryScope::All,
                        },
                        _ => ReleaseQuery {
                            url: build_github_api_url(
                                owner.as_str(),
                                name.as_str(),
                                "releases/latest",
                            ),
                            scope: QueryScope::Latest,
                        },
                    },
                };
                Some(query)
            },
            None => None,
        }
    }

    /// The arguments with which the transfer tool is run for one query.
    pub fn request_arguments(&self, url: &str) -> (arguments: Vec<String>)
        ensures
            words_of(arguments@) == request_arguments_of(text_of(self.config.github_cookies), url@),
    {
        let mut arguments: Vec<String> = vec![
            String::from_str("-s"),
            String::from_str("-L"),
            String::from_str("--max-time"),
            String::from_str("30"),
            String::from_str("-H"),
            String::from_str("Accept: application/vnd.github.v3+json"),
            String::from_str("-H"),
            String::from_str("User-Agent: rime_wanxiang_updater"),
        ];
        let ghost fixed = seq![
            "-s"@,
            "-L"@,
            "--max-time"@,
            "30"@,
            "-H"@,
            "Accept: application/vnd.github.v3+json"@,
            "-H"@,
            "User-Agent: rime_wanxiang_updater"@,
        ];
        assert(words_of(arguments@) == fixed);
        match &self.config.github_cookies {
            Some(cookie) => {
                if cookie.as_str().unicode_len() > 0 {
                    let mut header: String = String::from_str("Cookie: ");
                    header.append(cookie.as_str());
                    arguments.push(String::from_str("-H"));
                    arguments.push(header);
                    arguments.push(url.to_owned());
                    assert(words_of(arguments@) == fixed + seq![
                        "-H"@,
                        "Cookie: "@ + cookie@,
                        url@,
                    ]);
                    return arguments;
                }
            },
            None => {},
        }
        arguments.push(url.to_owned());
        assert(words_of(arguments@) == fixed + seq![url@]);
        arguments
    }

    /// Applies the configured mirror to the address of an asset.
    pub fn convert_to_mirror_url(&self, github_url: &str) -> (url: String)
        ensures
            url@ == mirrored_url(self.config.mirror@, github_url@),
    {
        apply_mirror_to_download_url(self.config.mirror.as_str(), github_url)
    }

    /// The asset of a release that the rules of a component pick, if any.
    pub fn find_asset<'a>(&self, kind: ComponentKind, assets: &'a [GitHubAsset]) -> (asset: Option<
        &'a GitHubAsset,
    >)
        ensures
            match asset {
                Some(found) => picked_asset(self.config@, kind, assets@) == Some(*found),
                None => picked_asset(self.config@, kind, assets@) is None,
            },
    {
        let component: Component = self.component(kind);
        proof {
            matched_by_in_range(names_of(assets@), component_rules(self.config@, kind), 0);
        }
        match match_first(assets, &component.rules) {
            Some(i) => Some(&assets[i]),
            None => None,
        }
    }

    /// The asset of a release that holds the scheme: the one with the
    /// configured name, else the first whose name tells of a scheme.
    pub fn find_schema_asset<'a>(&self, assets: &'a [GitHubAsset]) -> (asset: Option<
        &'a GitHubAsset,
    >)
        ensures
            match asset {
                Some(found) => picked_asset(self.config@, ComponentKind::Scheme, assets@) == Some(*found),
                None => picked_asset(self.config@, ComponentKind::Scheme, assets@) is None,
            },
    {
        self.find_asset(ComponentKind::Scheme, assets)
    }

    /// The asset of a release that holds the dictionary: the one with the
    /// configured name, else the first whose name tells of a dictionary.
    pub fn find_dict_asset<'a>(&self, assets: &'a [GitHubAsset]) -> (asset: Option<
        &'a GitHubAsset,
    >)
        ensures
            match asset {
                Some(found) => picked_asset(self.config@, ComponentKind::Dictionary, assets@) == Some(*found),
                None => picked_asset(self.config@, ComponentKind::Dictionary, assets@) is None,
            },
    {
        self.find_asset(ComponentKind::Dictionary, assets)
    }

    /// The asset of a release that holds the language model: the one with
    /// the configured name, else the first whose name tells of a model.
    pub fn find_model_asset<'a>(&self, assets: &'a [GitHubAsset]) -> (asset: Option<
        &'a GitHubAsset,
    >)
        ensures
            match asset {
                Some(found) => picked_asset(self.config@, ComponentKind::Model, assets@) == Some(*found),
                None => picked_asset(self.config@, ComponentKind::Model, assets@) is None,
            },
    {
        self.find_asset(ComponentKind::Model, assets)
    }

    /// The asset of a release that holds the program: the first whose name
    /// ends as that of a program does.
    pub fn find_self_asset<'a>(&self, assets: &'a [GitHubAsset]) -> (asset: Option<
        &'a GitHubAsset,
    >)
        ensures
            match asset {
                Some(found) => picked_asset(self.config@, ComponentKind::SelfProgram, assets@) == Some(*found),
                None => picked_asset(self.config@, ComponentKind::SelfProgram, assets@) is None,
            },
    {
        self.find_asset(ComponentKind::SelfProgram, assets)
    }

    /// Describes an asset of a release as a candidate.
    fn describe(&self, release: &GitHubRelease, asset: &GitHubAsset) -> (info: UpdateInfo)
        ensures
            info@ == described(self.config.mirror@, *release, *asset),
    {
        UpdateInfo {
            tag: release.tag_name.clone(),
            file_name: asset.name.clone(),
            file_size: asset.size,
            url: self.convert_to_mirror_url(asset.browser_download_url.as_str()),
            checksum: copy_text(&asset.checksum),
            published_at: release.published_at.clone(),
            description: match &release.body {
                Some(notes) => notes.clone(),
                None => String::new(),
            },
        }
    }

    /// The candidate that one release offers for a component.
    pub fn offer(&self, kind: ComponentKind, release: &GitHubRelease, running: &str) -> (candidate:
        Option<UpdateInfo>)
        ensures
            match candidate {
                Some(info) => offer_of(
                    component_of(self.config@, kind),
                    self.config.mirror@,
                    *release,
                    running@,
                ) == Some(info@),
                None => offer_of(
                    component_of(self.config@, kind),
                    self.config.mirror@,
                    *release,
                    running@,
                ) is None,
            },
    {
        let component: Component = self.component(kind);
        if !counts(&component, release) {
            return None;
        }
        match kind {
            ComponentKind::SelfProgram => {
                if !is_newer(release.tag_name.as_str(), running) {
                    return None;
                }
            },
            _ => {},
        }
        match match_first(release.assets.as_slice(), &component.rules) {
            Some(i) => Some(self.describe(release, &release.assets[i])),
            None => None,
        }
    }

    /// The candidate that a list of releases offers for a component.
    pub fn candidate(&self, kind: ComponentKind, releases: &[GitHubRelease], running: &str) -> (
        candidate: Option<UpdateInfo>)
        ensures
            match candidate {
                Some(info) => candidate_of(
                    component_of(self.config@, kind),
                    self.config.mirror@,
                    releases@,
                    running@,
                ) == Some(info@),
                None => candidate_of(
                    component_of(self.config@, kind),
                    self.config.mirror@,
                    releases@,
                    running@,
                ) is None,
            },
    {
        let component: Component = self.component(kind);
        let ghost view = component_of(self.config@, kind);
        let mut i: usize = 0;
        while i < releases.len()
            invariant
                i <= releases.len(),
                component@ == view,
                view == component_of(self.config@, kind),
                selected_release(view, releases@, 0) == selected_release(view, releases@, i as int),
            decreases releases.len() - i,
        {
            if counts(&component, &releases[i]) {
                return self.offer(kind, &releases[i], running);
            }
            i = i + 1;
        }
        None
    }

    /// The candidate for the scheme among the releases of its repository.
    pub fn check_schema_update(&self, releases: &[GitHubRelease]) -> (candidate: Option<
        UpdateInfo,
    >)
        ensures
            match candidate {
                Some(info) => candidate_of(
                    component_of(self.config@, ComponentKind::Scheme),
                    self.config.mirror@,
                    releases@,
                    Seq::empty(),
                ) == Some(info@),
                None => candidate_of(
                    component_of(self.config@, ComponentKind::Scheme),
                    self.config.mirror@,
                    releases@,
                    Seq::empty(),
                ) is None,
            },
    {
        self.candidate(ComponentKind::Scheme, releases, "")
    }

    /// The candidate for the dictionary in the release with its tag.
    pub fn check_dict_update(&self, release: &GitHubRelease) -> (candidate: Option<UpdateInfo>)
        ensures
            match candidate {
                Some(info) => offer_of(
                    component_of(self.config@, ComponentKind::Dictionary),
                    self.config.mirror@,
                    *release,
                    Seq::empty(),
                ) == Some(info@),
                None => offer_of(
                    component_of(self.config@, ComponentKind::Dictionary),
                    self.config.mirror@,
                    *release,
                    Seq::empty(),
                ) is None,
            },
    {
        self.offer(ComponentKind::Dictionary, release, "")
    }

    /// The candidate for the language model in the release with its tag.
    pub fn check_model_update(&self, release: &GitHubRelease) -> (candidate: Option<UpdateInfo>)
        ensures
            match candidate {
                Some(info) => offer_of(
                    component_of(self.config@, ComponentKind::Model),
                    self.config.mirror@,
                    *release,
                    Seq::empty(),
                ) == Some(info@),
                None => offer_of(
                    component_of(self.config@, ComponentKind::Model),
                    self.config.mirror@,
                    *release,
                    Seq::empty(),
                ) is None,
            },
    {
        self.offer(ComponentKind::Model, release, "")
    }

    /// The candidate for the program itself in the newest release, which
    /// counts only where it is newer than the running version.
    pub fn check_self_update(&self, release: &GitHubRelease, running: &str) -> (candidate: Option<
        UpdateInfo,
    >)
        ensures
            match candidate {
                Some(info) => offer_of(
                    component_of(self.config@, ComponentKind::SelfProgram),
                    self.config.mirror@,
                    *release,
                    running@,
                ) == Some(info@),
                None => offer_of(
                    component_of(self.config@, ComponentKind::SelfProgram),
                    self.config.mirror@,
                    *release,
                    running@,
                ) is None,
            },
    {
        self.offer(ComponentKind::SelfProgram, release, running)
    }
}

/// Whether the body of an answer is a rejection by the API.
pub fn is_rejection_body(body: &str) -> (rejected: bool)
    ensures
        rejected == is_rejection(body@),
{
    let all: Vec<char> = chars_of(body);
    let message: Vec<char> = chars_of("\"message\"");
    let documentation: Vec<char> = chars_of("\"documentation_url\"");
    contains(&all, &message) && contains(&all, &documentation)
}

/// The releases that the body of an answer gives for a query: the list that
/// the body describes where the whole list was asked for, else the one
/// release that it describes. `None` where the body describes none.
pub open spec fn answered_releases(body: Seq<char>, scope: QueryScope) -> Option<
    Seq<ReleaseView>,
> {
    if scope == QueryScope::All {
        releases_of_text(body)
    } else {
        match release_of_text(body) {
            Some(release) => Some(seq![release]),
            None => None,
        }
    }
}

/// Tells what an answer of the API amounts to, from whether the transfer
/// succeeded and the body that came. A transfer that failed is a transport
/// error whatever came. A body that is a rejection is reported as one, with
/// the message that it states. Any other body gives the releases that it
/// describes, and is malformed where it describes none.
pub fn read_response(exit_success: bool, body: &str, scope: QueryScope) -> (outcome: Result<
    Vec<GitHubRelease>,
    ReleaseError,
>)
    ensures
        match outcome {
            Ok(releases) => exit_success && !is_rejection(body@) && answered_releases(
                body@,
                scope,
            ) == Some(releases_view(releases@)),
            Err(ReleaseError::Transport) => !exit_success,
            Err(ReleaseError::ApiRejected(message)) => exit_success && is_rejection(body@)
                && message@ == message_of_text(body@),
            Err(ReleaseError::MalformedResponse) => exit_success && !is_rejection(body@)
                && answered_releases(body@, scope) is None,
            Err(ReleaseError::UnknownRepository) => false,
        },
{
    if !exit_success {
        return Err(ReleaseError::Transport);
    }
    if is_rejection_body(body) {
        return Err(ReleaseError::ApiRejected(parse_rejection(body).message));
    }
    match scope {
        QueryScope::All => match parse_releases(body) {
            Some(releases) => Ok(releases),
            None => Err(ReleaseError::MalformedResponse),
        },
        _ => match parse_release(body) {
            Some(release) => {
                let mut releases: Vec<GitHubRelease> = Vec::new();
                releases.push(release);
                assert(releases_view(releases@) == seq![release@]);
                Ok(releases)
            },
            None => Err(ReleaseError::MalformedResponse),
        },
    }
}

/// The release that is selected is the first, in the order of the list, that
/// can be offered; none is selected only where none can be.
pub proof fn selected_release_is_first(
    component: ComponentView,
    releases: Seq<GitHubRelease>,
    from: int,
)
    requires
        0 <= from,
    ensures
        match selected_release(component, releases, from) {
            Some(i) => {
                &&& from <= i < releases.len()
                &&& release_counts(component, releases[i])
                &&& forall|j: int| from <= j < i ==> !release_counts(component, #[trigger] releases[j])
            },
            None => forall|j: int|
                from <= j < releases.len() ==> !release_counts(component, #[trigger] releases[j]),
        },
    decreases releases.len() - from,
{
    if from < releases.len() && !release_counts(component, releases[from]) {
        selected_release_is_first(component, releases, from + 1);
    }
}

/// The mirror plays no part in a query to the API: two configurations that
/// differ in the mirror alone give the same query for every component.
pub proof fn query_ignores_mirror(a: UpdateConfigView, b: UpdateConfigView, kind: ComponentKind)
    requires
        b == (UpdateConfigView { mirror: b.mirror, ..a }),
    ensures
        query_url(component_of(a, kind)) == query_url(component_of(b, kind)),
        query_scope(component_of(a, kind)) == query_scope(component_of(b, kind)),
{
}

/// A candidate carries the address of its asset with the mirror applied, and
/// everything else as the release states it.
pub proof fn candidate_url_is_mirrored(
    component: ComponentView,
    mirror: Seq<char>,
    release: GitHubRelease,
    running: Seq<char>,
)
    requires
        offer_of(component, mirror, release, running) is Some,
    ensures
        exists|i: int|
            0 <= i < release.assets@.len() && offer_of(component, mirror, release, running)->0.url
                == mirrored_url(mirror, (#[trigger] release.assets@[i]).browser_download_url@),
        offer_of(component, mirror, release, running)->0.tag == release.tag_name@,
{
    let i = matched_by(names_of(release.assets@), component.rules, 0)->0;
    matched_by_in_range(names_of(release.assets@), component.rules, 0);
    assert(0 <= i < release.assets@.len());
    assert(offer_of(component, mirror, release, running)->0.url == mirrored_url(
        mirror,
        release.assets@[i].browser_download_url@,
    ));
}

} // verus!
