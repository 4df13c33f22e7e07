use rime_wanxiang_updater::file_operations::{
    FetchAction, FetchError, FetchEvent, FetchOutcome, FetchState,
};
use rime_wanxiang_updater::github_client::{ComponentKind, ReleaseError};
use rime_wanxiang_updater::pipeline::{Pipeline, PipelineAction, PipelineEvent, PipelineState};
use rime_wanxiang_updater::types::{
    GitHubAsset, GitHubRelease, UpdateConfig, UpdateInfo, UserPath,
};
use rime_wanxiang_updater::update_cache::CacheRead;
use rime_wanxiang_updater::update_checker::{
    handoff_script, InstallPlan, Outcome, Readiness, RunAction, StartupError, UpdateChecker,
    UpdateError,
};

const READY: Readiness = Readiness {
    curl_present: true,
    zip_present: true,
    cache_dir_ready: true,
};

fn paths() -> UserPath {
    UserPath {
        user: "C:/Users/me/Rime".to_string(),
        weasel: "C:/w".to_string(),
        config: "C:/Users/me/Rime/updater_conf.ini".to_string(),
        curl: "C:/w/curl.exe".to_string(),
        zip: "C:/w/7z.exe".to_string(),
    }
}

fn checker() -> UpdateChecker {
    UpdateChecker::new(&paths(), UpdateConfig::default(), "1.0.0", READY).unwrap()
}

fn release(tag: &str, name: &str, checksum: Option<&str>) -> GitHubRelease {
    GitHubRelease {
        tag_name: tag.to_string(),
        published_at: "2024-05-01T00:00:00Z".to_string(),
        body: None,
        draft: false,
        prerelease: false,
        assets: vec![GitHubAsset {
            name: name.to_string(),
            size: 50_000,
            browser_download_url: format!("https://github.com/o/r/releases/download/{}/{}", tag, name),
            checksum: checksum.map(|c| c.to_string()),
        }],
    }
}

fn cached(tag: &str, name: &str) -> UpdateInfo {
    UpdateInfo {
        tag: tag.to_string(),
        file_name: name.to_string(),
        file_size: 40_000,
        url: "https://github.com/o/r/old".to_string(),
        checksum: None,
        published_at: "2023-01-01T00:00:00Z".to_string(),
        description: String::new(),
    }
}

fn released(list: Vec<GitHubRelease>, artifact_present: bool) -> PipelineEvent {
    PipelineEvent::Released(Ok(list), artifact_present)
}

fn nothing_released() -> PipelineEvent {
    PipelineEvent::Released(Ok(Vec::new()), true)
}

/// Runs a fetch against a store that holds nothing beforehand, in which the
/// transfer brings a file whose checksum is `brought`.
fn fetch_with(run: &UpdateChecker, kind: ComponentKind, brought: &str) -> (FetchOutcome, u32) {
    let mut fetcher = run.fetcher(kind).unwrap();
    let mut downloads = 0;
    let mut action = fetcher.action();
    loop {
        let event = match action {
            FetchAction::Inspect => FetchEvent::Size(None),
            FetchAction::ComputeChecksum => FetchEvent::Checksum(Some(brought.to_string())),
            FetchAction::ReadHeader => FetchEvent::Header(vec![0x50, 0x4B, 0x03, 0x04]),
            FetchAction::Remove => FetchEvent::Removed(true),
            FetchAction::Download => {
                downloads += 1;
                FetchEvent::Transferred(true, Some(50_000))
            }
            FetchAction::Finished(outcome) => return (outcome, downloads),
        };
        action = fetcher.step(&event);
    }
}

#[test]
fn run_starts_idle_with_its_directories() {
    let run = checker();
    assert_eq!(run.cache_dir, "C:/Users/me/Rime/UpdateCache");
    assert_eq!(run.user_dir, "C:/Users/me/Rime");
    assert_eq!(run.running, "1.0.0");
    assert_eq!(run.github_client.curl_path, "C:/w/curl.exe");
    assert_eq!(run.file_ops.zip_path, "C:/w/7z.exe");
    assert!(!run.reloaded);
    for kind in [
        ComponentKind::Scheme,
        ComponentKind::Dictionary,
        ComponentKind::Model,
        ComponentKind::SelfProgram,
    ] {
        assert_eq!(run.state(kind), PipelineState::Idle);
        assert_eq!(run.candidate(kind), None);
        assert_eq!(run.outcome(kind), None);
        assert_eq!(run.cache.load(kind), None);
        assert!(run.release_query(kind).is_some());
    }
    assert_eq!(
        run.next(),
        RunAction::Component(ComponentKind::Scheme, PipelineAction::Advance)
    );
    assert!(!run.reload_required());
    assert!(!run.relaunching());
}

#[test]
fn run_does_not_start_without_its_tools() {
    let p = paths();
    let c = UpdateConfig::default();
    let missing_curl = Readiness { curl_present: false, zip_present: false, cache_dir_ready: false };
    assert_eq!(
        UpdateChecker::new(&p, c.clone(), "1.0.0", missing_curl).err(),
        Some(StartupError::MissingCurl)
    );
    let missing_zip = Readiness { curl_present: true, zip_present: false, cache_dir_ready: false };
    assert_eq!(
        UpdateChecker::new(&p, c.clone(), "1.0.0", missing_zip).err(),
        Some(StartupError::MissingArchiver)
    );
    let no_dir = Readiness { curl_present: true, zip_present: true, cache_dir_ready: false };
    assert_eq!(
        UpdateChecker::new(&p, c.clone(), "1.0.0", no_dir).err(),
        Some(StartupError::CacheDirectory)
    );
}

#[test]
fn unknown_repository_fails_its_component_and_no_other() {
    let mut bad = UpdateConfig::default();
    bad.model_repo = "nowhere".to_string();
    bad.self_repo = "".to_string();
    let mut run = UpdateChecker::new(&paths(), bad, "1.0.0", READY).unwrap();
    assert!(run.release_query(ComponentKind::Scheme).is_some());
    assert_eq!(run.release_query(ComponentKind::Model), None);
    assert_eq!(run.release_query(ComponentKind::SelfProgram), None);

    assert_eq!(
        run.step(ComponentKind::Scheme, PipelineEvent::Proceed),
        RunAction::Component(ComponentKind::Scheme, PipelineAction::Check)
    );
    run.step(ComponentKind::Scheme, nothing_released());
    run.step(ComponentKind::Dictionary, PipelineEvent::Proceed);
    assert_eq!(
        run.step(
            ComponentKind::Dictionary,
            released(vec![release("dict-nightly", "9-base-dicts.zip", None)], false)
        ),
        RunAction::Component(ComponentKind::Dictionary, PipelineAction::Advance)
    );
    assert_eq!(run.state(ComponentKind::Dictionary), PipelineState::Stale);
    run.step(ComponentKind::Dictionary, PipelineEvent::Proceed);
    run.step(ComponentKind::Dictionary, PipelineEvent::FetchEnded(FetchOutcome::Fetched));
    run.step(ComponentKind::Dictionary, PipelineEvent::Proceed);
    run.step(ComponentKind::Dictionary, PipelineEvent::InstallEnded(true));
    assert_eq!(
        run.step(ComponentKind::Dictionary, PipelineEvent::Proceed),
        RunAction::Component(ComponentKind::Model, PipelineAction::Advance)
    );
    assert_eq!(
        run.step(ComponentKind::Model, PipelineEvent::Proceed),
        RunAction::Component(ComponentKind::SelfProgram, PipelineAction::Advance)
    );
    assert_eq!(run.state(ComponentKind::Model), PipelineState::CheckFailed);
    assert_eq!(
        run.outcome(ComponentKind::Model),
        Some(Outcome::Failed(UpdateError::UnknownRepository))
    );
    assert_eq!(
        run.step(
            ComponentKind::Model,
            released(vec![release("LTS", "wanxiang-lts-zh-hans.gram", None)], false)
        ),
        RunAction::Component(ComponentKind::SelfProgram, PipelineAction::Advance)
    );
    assert_eq!(run.state(ComponentKind::Model), PipelineState::CheckFailed);
    assert_eq!(
        run.step(ComponentKind::SelfProgram, PipelineEvent::Proceed),
        RunAction::Reload
    );
    assert_eq!(
        run.outcome(ComponentKind::SelfProgram),
        Some(Outcome::Failed(UpdateError::UnknownRepository))
    );
    assert_eq!(run.state(ComponentKind::Dictionary), PipelineState::Committed);
    assert!(run.reload_required());
    assert!(run.is_well_formed());
}

#[test]
fn unknown_repository_is_told_when_all_are_checked_at_once() {
    let mut bad = UpdateConfig::default();
    bad.schema_repo = "https://example.org/a/b".to_string();
    let mut run = UpdateChecker::new(&paths(), bad, "1.0.0", READY).unwrap();
    let due = run.check_all_updates(
        released(vec![release("v2.0.0", "rime-wanxiang-base.zip", None)], false),
        released(vec![release("dict-nightly", "9-base-dicts.zip", None)], false),
        nothing_released(),
        nothing_released(),
    );
    assert_eq!(due, vec![ComponentKind::Dictionary]);
    assert_eq!(
        run.outcome(ComponentKind::Scheme),
        Some(Outcome::Failed(UpdateError::UnknownRepository))
    );
    assert_eq!(run.candidate(ComponentKind::Scheme), None);
}

#[test]
fn dictionary_update_is_committed_and_asks_for_a_reload() {
    let mut run = checker();
    run.restore(
        ComponentKind::Dictionary,
        CacheRead::Record(cached("v1.0.0", "9-base-dicts.zip")),
    );
    let kind = ComponentKind::Dictionary;
    run.step(ComponentKind::Scheme, PipelineEvent::Proceed);
    run.step(ComponentKind::Scheme, nothing_released());
    assert_eq!(
        run.next(),
        RunAction::Component(kind, PipelineAction::Advance)
    );
    assert_eq!(
        run.step(kind, PipelineEvent::Proceed),
        RunAction::Component(kind, PipelineAction::Check)
    );
    assert_eq!(run.state(kind), PipelineState::Checking);
    let remote = release("v1.1.0", "9-base-dicts.zip", Some("H"));
    assert_eq!(
        run.step(kind, released(vec![remote], true)),
        RunAction::Component(kind, PipelineAction::Advance)
    );
    assert_eq!(run.state(kind), PipelineState::Stale);
    assert_eq!(
        run.step(kind, PipelineEvent::Proceed),
        RunAction::Component(kind, PipelineAction::Fetch)
    );
    assert_eq!(run.state(kind), PipelineState::Fetching);
    let (outcome, downloads) = fetch_with(&run, kind, "h");
    assert_eq!(outcome, FetchOutcome::Fetched);
    assert_eq!(downloads, 1);
    assert_eq!(
        run.step(kind, PipelineEvent::FetchEnded(outcome)),
        RunAction::Component(kind, PipelineAction::Advance)
    );
    assert_eq!(run.state(kind), PipelineState::Fetched);
    assert_eq!(
        run.step(kind, PipelineEvent::Proceed),
        RunAction::Component(kind, PipelineAction::Install)
    );
    assert_eq!(run.state(kind), PipelineState::Installing);
    assert_eq!(
        run.cache.load(kind).unwrap().tag,
        "v1.0.0",
        "nothing is recorded before the install has succeeded"
    );
    assert_eq!(
        run.step(kind, PipelineEvent::InstallEnded(true)),
        RunAction::Component(kind, PipelineAction::Commit)
    );
    assert_eq!(run.state(kind), PipelineState::Installed);
    assert_eq!(run.cache.load(kind).unwrap().tag, "v1.0.0");
    run.step(kind, PipelineEvent::Proceed);
    assert_eq!(run.state(kind), PipelineState::Committed);
    let recorded = run.cache.load(kind).unwrap();
    assert_eq!(recorded.tag, "v1.1.0");
    assert_eq!(recorded.checksum, Some("H".to_string()));
    assert_eq!(Some(recorded.clone()), run.candidate(kind));
    assert_eq!(run.outcome(kind), Some(Outcome::Committed(recorded)));

    run.step(ComponentKind::Model, PipelineEvent::Proceed);
    run.step(ComponentKind::Model, nothing_released());
    run.step(ComponentKind::SelfProgram, PipelineEvent::Proceed);
    assert_eq!(
        run.step(ComponentKind::SelfProgram, nothing_released()),
        RunAction::Reload
    );
    assert!(run.reload_required());
    assert!(!run.relaunching());
    assert_eq!(run.mark_reloaded(), RunAction::Finished);
    assert_eq!(run.next(), RunAction::Finished);
    assert!(run.reload_required());
}

#[test]
fn equal_remote_tag_leaves_the_component_up_to_date() {
    let mut run = checker();
    let kind = ComponentKind::Dictionary;
    run.restore(kind, CacheRead::Record(cached("v1.1.0", "9-base-dicts.zip")));
    run.step(kind, PipelineEvent::Proceed);
    let mut remote = release("v1.1.0", "9-base-dicts.zip", Some("H"));
    remote.published_at = "2030-01-01T00:00:00Z".to_string();
    run.step(kind, released(vec![remote], true));
    assert_eq!(run.state(kind), PipelineState::UpToDate);
    assert_eq!(run.outcome(kind), Some(Outcome::UpToDate));
    assert_eq!(run.candidate(kind), None);
    assert_eq!(run.fetcher(kind), None, "no download is attempted");
    assert_eq!(run.install_plan(kind), None);
    assert_eq!(run.cache.load(kind), Some(cached("v1.1.0", "9-base-dicts.zip")));
    assert_eq!(run.step(kind, PipelineEvent::Proceed), run.next());
    assert_eq!(run.state(kind), PipelineState::UpToDate);

    for other in [ComponentKind::Scheme, ComponentKind::Model, ComponentKind::SelfProgram] {
        run.step(other, PipelineEvent::Proceed);
        run.step(other, nothing_released());
    }
    assert_eq!(run.next(), RunAction::Finished);
    assert!(!run.reload_required());
}

#[test]
fn checksum_mismatch_fails_the_fetch_and_leaves_the_cache() {
    let mut run = checker();
    let kind = ComponentKind::Dictionary;
    run.restore(kind, CacheRead::Record(cached("v1.0.0", "9-base-dicts.zip")));
    run.step(kind, PipelineEvent::Proceed);
    run.step(
        kind,
        released(vec![release("v1.1.0", "9-base-dicts.zip", Some("H"))], true),
    );
    run.step(kind, PipelineEvent::Proceed);
    let (outcome, downloads) = fetch_with(&run, kind, "not-h");
    assert_eq!(outcome, FetchOutcome::Failed(FetchError::IntegrityMismatch));
    assert_eq!(downloads, 1);
    run.step(kind, PipelineEvent::FetchEnded(outcome));
    assert_eq!(
        run.state(kind),
        PipelineState::FetchFailed(FetchError::IntegrityMismatch)
    );
    assert_eq!(
        run.outcome(kind),
        Some(Outcome::Failed(UpdateError::IntegrityMismatch))
    );
    assert_eq!(run.cache.load(kind), Some(cached("v1.0.0", "9-base-dicts.zip")));
    run.step(kind, PipelineEvent::Proceed);
    run.step(kind, PipelineEvent::InstallEnded(true));
    assert_eq!(
        run.state(kind),
        PipelineState::FetchFailed(FetchError::IntegrityMismatch)
    );
    assert_eq!(run.cache.load(kind).unwrap().tag, "v1.0.0");

    for other in [ComponentKind::Scheme, ComponentKind::Model, ComponentKind::SelfProgram] {
        run.step(other, PipelineEvent::Proceed);
        run.step(other, nothing_released());
    }
    assert_eq!(run.next(), RunAction::Finished);
    assert!(!run.reload_required());
}

#[test]
fn failed_component_does_not_stop_the_others() {
    let mut run = checker();
    run.step(ComponentKind::Scheme, PipelineEvent::Proceed);
    assert_eq!(
        run.step(
            ComponentKind::Scheme,
            PipelineEvent::Released(Err(ReleaseError::Transport), false)
        ),
        RunAction::Component(ComponentKind::Dictionary, PipelineAction::Advance)
    );
    assert_eq!(run.state(ComponentKind::Scheme), PipelineState::CheckFailed);
    assert_eq!(
        run.outcome(ComponentKind::Scheme),
        Some(Outcome::Failed(UpdateError::Transport))
    );
    run.step(ComponentKind::Dictionary, PipelineEvent::Proceed);
    run.step(
        ComponentKind::Dictionary,
        PipelineEvent::Released(Err(ReleaseError::ApiRejected("rate limit".to_string())), true),
    );
    assert_eq!(
        run.outcome(ComponentKind::Dictionary),
        Some(Outcome::Failed(UpdateError::ApiRejected("rate limit".to_string())))
    );
    run.step(ComponentKind::Model, PipelineEvent::Proceed);
    run.step(
        ComponentKind::Model,
        PipelineEvent::Released(Err(ReleaseError::MalformedResponse), true),
    );
    assert_eq!(
        run.outcome(ComponentKind::Model),
        Some(Outcome::Failed(UpdateError::MalformedResponse))
    );
    assert_eq!(
        run.next(),
        RunAction::Component(ComponentKind::SelfProgram, PipelineAction::Advance)
    );
    run.step(ComponentKind::SelfProgram, PipelineEvent::Proceed);
    assert_eq!(
        run.step(ComponentKind::SelfProgram, nothing_released()),
        RunAction::Finished
    );
    assert!(!run.reload_required());
}

#[test]
fn missing_artifact_makes_an_equal_tag_stale() {
    let mut run = checker();
    let kind = ComponentKind::Model;
    run.restore(kind, CacheRead::Record(cached("LTS", "wanxiang-lts-zh-hans.gram")));
    assert_eq!(
        run.cache.cached_artifact(kind),
        Some("wanxiang-lts-zh-hans.gram".to_string())
    );
    run.step(kind, PipelineEvent::Proceed);
    run.step(
        kind,
        released(vec![release("LTS", "wanxiang-lts-zh-hans.gram", None)], false),
    );
    assert_eq!(run.state(kind), PipelineState::Stale);
}

#[test]
fn install_failure_records_nothing() {
    let mut run = checker();
    let kind = ComponentKind::Scheme;
    run.step(kind, PipelineEvent::Proceed);
    run.step(
        kind,
        released(vec![release("v2.0.0", "rime-wanxiang-base.zip", None)], false),
    );
    assert_eq!(run.state(kind), PipelineState::Stale);
    run.step(kind, PipelineEvent::Proceed);
    run.step(kind, PipelineEvent::FetchEnded(FetchOutcome::AlreadyFetched));
    assert_eq!(run.state(kind), PipelineState::Fetched);
    run.step(kind, PipelineEvent::Proceed);
    run.step(kind, PipelineEvent::InstallEnded(false));
    assert_eq!(run.state(kind), PipelineState::InstallFailed);
    assert_eq!(
        run.outcome(kind),
        Some(Outcome::Failed(UpdateError::InstallFailed))
    );
    assert_eq!(run.cache.load(kind), None);
    run.step(kind, PipelineEvent::Proceed);
    assert_eq!(run.state(kind), PipelineState::InstallFailed);
    assert_eq!(run.cache.load(kind), None);
}

#[test]
fn download_failure_is_told_apart_from_a_mismatch() {
    let mut run = checker();
    let kind = ComponentKind::Scheme;
    run.step(kind, PipelineEvent::Proceed);
    run.step(
        kind,
        released(vec![release("v2.0.0", "rime-wanxiang-base.zip", None)], false),
    );
    run.step(kind, PipelineEvent::Proceed);
    run.step(
        kind,
        PipelineEvent::FetchEnded(FetchOutcome::Failed(FetchError::DownloadFailed)),
    );
    assert_eq!(
        run.outcome(kind),
        Some(Outcome::Failed(UpdateError::DownloadFailed))
    );
}

#[test]
fn program_update_hands_off_without_a_reload() {
    let mut run = checker();
    let kind = ComponentKind::Dictionary;
    run.step(kind, PipelineEvent::Proceed);
    run.step(
        kind,
        released(vec![release("dict-nightly", "9-base-dicts.zip", None)], false),
    );
    run.step(kind, PipelineEvent::Proceed);
    run.step(kind, PipelineEvent::FetchEnded(FetchOutcome::Fetched));
    run.step(kind, PipelineEvent::Proceed);
    run.step(kind, PipelineEvent::InstallEnded(true));
    run.step(kind, PipelineEvent::Proceed);
    assert_eq!(run.state(kind), PipelineState::Committed);
    for other in [ComponentKind::Scheme, ComponentKind::Model] {
        run.step(other, PipelineEvent::Proceed);
        run.step(other, nothing_released());
    }
    let program = ComponentKind::SelfProgram;
    run.step(program, PipelineEvent::Proceed);
    run.step(
        program,
        released(vec![release("v1.0.1", "updater.exe", None)], false),
    );
    assert_eq!(run.state(program), PipelineState::Stale);
    assert_eq!(
        run.install_plan(program),
        Some(InstallPlan::HandOff(
            "C:/Users/me/Rime/UpdateCache/updater.exe".to_string()
        ))
    );
    run.step(program, PipelineEvent::Proceed);
    run.step(program, PipelineEvent::FetchEnded(FetchOutcome::Fetched));
    run.step(program, PipelineEvent::Proceed);
    run.step(program, PipelineEvent::InstallEnded(true));
    assert_eq!(run.step(program, PipelineEvent::Proceed), RunAction::Finished);
    assert!(run.relaunching());
    assert!(!run.reload_required());
    assert_eq!(run.fallback_url(), None);
    assert_eq!(run.cache.load(program).unwrap().tag, "v1.0.1");
}

#[test]
fn failed_program_update_gives_the_address_for_a_download_by_hand() {
    let mut run = checker();
    let program = ComponentKind::SelfProgram;
    assert_eq!(run.fallback_url(), None);
    run.step(program, PipelineEvent::Proceed);
    run.step(
        program,
        released(vec![release("v1.0.1", "updater.exe", None)], false),
    );
    assert_eq!(run.fallback_url(), None);
    run.step(program, PipelineEvent::Proceed);
    run.step(program, PipelineEvent::FetchEnded(FetchOutcome::Fetched));
    run.step(program, PipelineEvent::Proceed);
    run.step(program, PipelineEvent::InstallEnded(false));
    assert_eq!(
        run.fallback_url(),
        Some("https://github.com/o/r/releases/download/v1.0.1/updater.exe".to_string())
    );
    assert!(!run.relaunching());
}

#[test]
fn program_of_the_running_version_is_up_to_date() {
    let mut run = checker();
    let program = ComponentKind::SelfProgram;
    run.step(program, PipelineEvent::Proceed);
    run.step(
        program,
        released(vec![release("v1.0.0", "updater.exe", None)], false),
    );
    assert_eq!(run.state(program), PipelineState::UpToDate);
}

#[test]
fn fetch_and_install_follow_the_candidate() {
    let mut config = UpdateConfig::default();
    config.github_cookies = Some("s=1".to_string());
    config.mirror = "gh-proxy.com".to_string();
    let mut run = UpdateChecker::new(&paths(), config, "1.0.0", READY).unwrap();
    for (kind, tag, name) in [
        (ComponentKind::Scheme, "v1.0.0", "rime-wanxiang-base.zip"),
        (ComponentKind::Dictionary, "dict-nightly", "9-base-dicts.zip"),
        (ComponentKind::Model, "LTS", "wanxiang-lts-zh-hans.gram"),
    ] {
        run.step(kind, PipelineEvent::Proceed);
        run.step(kind, released(vec![release(tag, name, Some("H"))], false));
        let f = run.fetcher(kind).unwrap();
        assert_eq!(
            f.url,
            format!("https://gh-proxy.com/https://github.com/o/r/releases/download/{}/{}", tag, name)
        );
        assert_eq!(f.destination, format!("C:/Users/me/Rime/UpdateCache/{}", name));
        assert_eq!(f.expected_checksum, Some("H".to_string()));
        assert_eq!(f.credential, Some("s=1".to_string()));
        assert_eq!(f.state, FetchState::Probing);
    }
    assert_eq!(
        run.install_plan(ComponentKind::Scheme),
        Some(InstallPlan::ExtractArchive(
            "C:/Users/me/Rime/UpdateCache/rime-wanxiang-base.zip".to_string(),
            "C:/Users/me/Rime".to_string()
        ))
    );
    assert_eq!(
        run.install_plan(ComponentKind::Dictionary),
        Some(InstallPlan::ExtractArchive(
            "C:/Users/me/Rime/UpdateCache/9-base-dicts.zip".to_string(),
            "C:/Users/me/Rime/dicts".to_string()
        ))
    );
    assert_eq!(
        run.install_plan(ComponentKind::Model),
        Some(InstallPlan::ReplaceFile(
            "C:/Users/me/Rime/UpdateCache/wanxiang-lts-zh-hans.gram".to_string(),
            "C:/Users/me/Rime/wanxiang-lts-zh-hans.gram".to_string()
        ))
    );
    assert_eq!(run.install_plan(ComponentKind::SelfProgram), None);
}

#[test]
fn all_components_are_checked_at_once() {
    let mut run = checker();
    run.restore(
        ComponentKind::Dictionary,
        CacheRead::Record(cached("dict-nightly", "9-base-dicts.zip")),
    );
    let due = run.check_all_updates(
        released(vec![release("v2.0.0", "rime-wanxiang-base.zip", None)], false),
        released(vec![release("dict-nightly", "9-base-dicts.zip", None)], true),
        PipelineEvent::Released(Err(ReleaseError::Transport), false),
        released(vec![release("v1.2.0", "updater.exe", None)], false),
    );
    assert_eq!(due, vec![ComponentKind::Scheme, ComponentKind::SelfProgram]);
    assert_eq!(run.state(ComponentKind::Scheme), PipelineState::Stale);
    assert_eq!(run.state(ComponentKind::Dictionary), PipelineState::UpToDate);
    assert_eq!(run.state(ComponentKind::Model), PipelineState::CheckFailed);
    assert_eq!(run.state(ComponentKind::SelfProgram), PipelineState::Stale);
    assert_eq!(run.candidate(ComponentKind::Scheme).unwrap().tag, "v2.0.0");
    assert_eq!(run.candidate(ComponentKind::SelfProgram).unwrap().tag, "v1.2.0");
    assert_eq!(
        run.next(),
        RunAction::Component(ComponentKind::Scheme, PipelineAction::Advance)
    );

    let mut run = checker();
    let due = run.check_all_updates(
        nothing_released(),
        nothing_released(),
        nothing_released(),
        PipelineEvent::Proceed,
    );
    assert_eq!(due, Vec::new());
    assert_eq!(run.state(ComponentKind::SelfProgram), PipelineState::Checking);
}

#[test]
fn pipeline_ignores_events_that_it_does_not_await() {
    let run = checker();
    let mut cache = run.cache.clone();
    let mut p = Pipeline::new(ComponentKind::Model);
    assert_eq!(p.action(), PipelineAction::Advance);
    assert!(!p.finished());
    assert_eq!(
        p.step(PipelineEvent::InstallEnded(true), &run.github_client, &mut cache, "1.0.0"),
        PipelineAction::Advance
    );
    assert_eq!(
        p.step(
            PipelineEvent::FetchEnded(FetchOutcome::Fetched),
            &run.github_client,
            &mut cache,
            "1.0.0"
        ),
        PipelineAction::Advance
    );
    assert_eq!(p.state, PipelineState::Idle);
    assert_eq!(
        p.step(PipelineEvent::Proceed, &run.github_client, &mut cache, "1.0.0"),
        PipelineAction::Check
    );
    assert_eq!(
        p.step(PipelineEvent::Proceed, &run.github_client, &mut cache, "1.0.0"),
        PipelineAction::Check
    );
    assert_eq!(
        p.step(nothing_released(), &run.github_client, &mut cache, "1.0.0"),
        PipelineAction::Finished
    );
    assert!(p.finished());
    assert_eq!(cache, run.cache);
}

#[test]
fn run_tells_whether_an_update_is_due() {
    let mut run = checker();
    let remote = cached("v1.1.0", "9-base-dicts.zip");
    assert!(run.should_update(&remote, ComponentKind::Dictionary, true));
    run.restore(
        ComponentKind::Dictionary,
        CacheRead::Record(cached("v1.1.0", "9-base-dicts.zip")),
    );
    assert!(!run.should_update(&remote, ComponentKind::Dictionary, true));
    assert!(run.should_update(&remote, ComponentKind::Dictionary, false));
    assert!(run.should_update(&remote, ComponentKind::Model, true));
    assert!(run.is_well_formed());
}

#[test]
fn run_that_was_tampered_with_is_not_well_formed() {
    let mut run = checker();
    assert!(run.is_well_formed());
    run.model.state = PipelineState::Fetching;
    assert!(!run.is_well_formed());
    assert!(!run.model.is_well_formed());
    let mut run = checker();
    run.scheme.kind = ComponentKind::Model;
    assert!(!run.is_well_formed());
    let mut run = checker();
    run.program.state = PipelineState::CheckFailed;
    assert!(!run.is_well_formed());
}

#[test]
fn run_ends_at_once_when_the_program_was_replaced() {
    let mut run = checker();
    let program = ComponentKind::SelfProgram;
    run.step(program, PipelineEvent::Proceed);
    run.step(
        program,
        released(vec![release("v1.0.1", "updater.exe", None)], false),
    );
    run.step(program, PipelineEvent::Proceed);
    run.step(program, PipelineEvent::FetchEnded(FetchOutcome::Fetched));
    run.step(program, PipelineEvent::Proceed);
    assert_eq!(
        run.step(program, PipelineEvent::InstallEnded(true)),
        RunAction::Component(ComponentKind::Scheme, PipelineAction::Advance)
    );
    assert_eq!(run.step(program, PipelineEvent::Proceed), RunAction::Finished);
    assert_eq!(run.state(ComponentKind::Scheme), PipelineState::Idle);
    assert_eq!(run.next(), RunAction::Finished);
    assert!(run.relaunching());
    assert!(!run.reload_required());
}

#[test]
fn run_reports_how_each_component_ended() {
    let mut run = checker();
    run.step(ComponentKind::Scheme, PipelineEvent::Proceed);
    run.step(ComponentKind::Scheme, nothing_released());
    run.step(ComponentKind::Dictionary, PipelineEvent::Proceed);
    run.step(
        ComponentKind::Dictionary,
        PipelineEvent::Released(Err(ReleaseError::MalformedResponse), false),
    );
    run.step(ComponentKind::Model, PipelineEvent::Proceed);
    assert_eq!(
        run.outcomes(),
        vec![
            (ComponentKind::Scheme, Some(Outcome::UpToDate)),
            (
                ComponentKind::Dictionary,
                Some(Outcome::Failed(UpdateError::MalformedResponse))
            ),
            (ComponentKind::Model, None),
            (ComponentKind::SelfProgram, None),
        ]
    );
}

#[test]
fn handoff_script_replaces_and_restarts_the_program() {
    assert_eq!(
        handoff_script("C:\\t\\u.exe", "C:/c/new.exe"),
        "@echo off\r\ntimeout /t 3 /nobreak > nul\r\nif exist \"C:\\t\\u.exe\" copy /y \"C:\\t\\u.exe\" \"C:\\t\\u.exe.backup\" > nul\r\nmove /y \"C:/c/new.exe\" \"C:\\t\\u.exe\"\r\nif %errorlevel% neq 0 if exist \"C:\\t\\u.exe.backup\" move /y \"C:\\t\\u.exe.backup\" \"C:\\t\\u.exe\"\r\nif exist \"C:\\t\\u.exe.backup\" del \"C:\\t\\u.exe.backup\"\r\nstart \"\" \"C:\\t\\u.exe\"\r\ndel \"%~f0\"\r\n"
    );
}

#[test]
fn run_writes_the_record_that_reads_back() {
    let run = checker();
    let info = cached("v1.1.0", "9-base-dicts.zip");
    let text = run.save_update_info(&info);
    assert_eq!(text, rime_wanxiang_updater::record_file::encode_record(&info));
    assert_eq!(
        rime_wanxiang_updater::record_file::decode_record(&text),
        CacheRead::Record(info)
    );
}
