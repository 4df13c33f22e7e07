use crate::asset_match::words_of;
use crate::file_operations::{
    extract_arguments_of, ArtifactFetcher, FetchError, FetchState, FileOperations,
};
use crate::github_client::{
    component_of, query_scope, query_url, ComponentKind, GitHubClient, ReleaseError,
    ReleaseQuery,
};
use crate::pipeline::{
    action_of, is_terminal, repository_known, stepped, Pipeline, PipelineAction, PipelineEvent,
    PipelineState,
};
use crate::record_file::{encode_record, record_text};
use crate::types::{UpdateConfig, UpdateConfigView, UpdateInfo, UserPath};
use crate::url_utils::resolved_mirror;
use crate::update_cache::{record_read, stale, CacheRead, UpdateCache};
use crate::weasel_manager::{
    deploy_action, deploy_step, DeployAction, DeployEvent, DeployState, WeaselManager,
};
use vstd::prelude::*;

verus! {

/// What the updater needs before it can start, as it was found.
#[derive(Clone, Copy, Debug, PartialEq, Eq, Structural)]
pub struct Readiness {
    /// Whether the transfer tool is where it is expected.
    pub curl_present: bool,
    /// Whether the archive tool is where it is expected.
    pub zip_present: bool,
    /// Whether the directory of the cache exists or could be made.
    pub cache_dir_ready: bool,
}

/// Why the updater cannot start.
#[derive(Clone, Copy, Debug, PartialEq, Eq, Structural)]
pub enum StartupError {
    /// The transfer tool is missing.
    MissingCurl,
    /// The archive tool is missing.
    MissingArchiver,
    /// The directory of the cache is missing and cannot be made.
    CacheDirectory,
}

/// What is to be done next in a run.
#[derive(Clone, Copy, Debug, PartialEq, Eq, Structural)]
pub enum RunAction {
    /// This for the pipeline of this component.
    Component(ComponentKind, PipelineAction),
    /// Have the host application initialise itself anew.
    Reload,
    /// Nothing: the run has ended.
    Finished,
}

/// How an artifact that was fetched is installed.
#[derive(Debug, Clone, PartialEq, Eq)]
pub enum InstallPlan {
    /// Unpack the archive into the directory, overwriting what is there.
    ExtractArchive(String, String),
    /// Put the file in the place of the target.
    ReplaceFile(String, String),
    /// Hand the new program over to the step that replaces the running one
    /// and starts it again.
    HandOff(String),
}

/// An error of the update of one component.
#[derive(Debug, Clone, PartialEq, Eq)]
pub enum UpdateError {
    /// The request for the releases did not get through.
    Transport,
    /// The hosting API rejected the request, with this message.
    ApiRejected(String),
    /// The answer of the hosting API could not be read.
    MalformedResponse,
    /// The repository of the component cannot be told from what is
    /// configured; nothing was asked.
    UnknownRepository,
    /// The transfer of the artifact failed.
    DownloadFailed,
    /// The artifact that was transferred does not pass its check.
    IntegrityMismatch,
    /// The artifact could not be installed.
    InstallFailed,
}

/// How the update of one component ended.
#[derive(Debug, Clone, PartialEq, Eq)]
pub enum Outcome {
    /// There was nothing to update.
    UpToDate,
    /// The artifact that this record describes was installed and recorded.
    Committed(UpdateInfo),
    /// The update failed, and nothing was recorded.
    Failed(UpdateError),
}

/// One run of the updater over all components: the pipelines of the four
/// components, the cache of their records, and whether the host application
/// was already told to initialise itself anew.
#[derive(Debug, Clone, PartialEq, Eq)]
pub struct UpdateChecker {
    pub cache_dir: String,
    pub user_dir: String,
    pub running: String,
    pub github_client: GitHubClient,
    pub file_ops: FileOperations,
    pub weasel_mgr: WeaselManager,
    pub cache: UpdateCache,
    pub scheme: Pipeline,
    pub dictionary: Pipeline,
    pub model: Pipeline,
    pub program: Pipeline,
    pub reloaded: bool,
}

/// The directory of the cache below the user's data directory.
pub open spec fn cache_dir_of(user: Seq<char>) -> Seq<char> {
    user + "/UpdateCache"@
}

/// The place of a file in a directory.
pub open spec fn path_in(directory: Seq<char>, file_name: Seq<char>) -> Seq<char> {
    directory + "/"@ + file_name
}

/// Whether a component takes part in the decision to have the host
/// application initialise itself anew: all but the program itself.
pub open spec fn reload_eligible(kind: ComponentKind) -> bool {
    kind != ComponentKind::SelfProgram
}

/// What stands in the way of a start, if anything: a missing tool or a
/// missing directory of the cache, in this order. Nothing that concerns one
/// component alone stands in the way: it fails that component when its turn
/// comes, and the others run.
pub open spec fn startup_error(ready: Readiness) -> Option<StartupError> {
    if !ready.curl_present {
        Some(StartupError::MissingCurl)
    } else if !ready.zip_present {
        Some(StartupError::MissingArchiver)
    } else if !ready.cache_dir_ready {
        Some(StartupError::CacheDirectory)
    } else {
        None
    }
}

impl UpdateChecker {
    /// The pipeline of a component.
    pub open spec fn pipeline(self, kind: ComponentKind) -> Pipeline {
        match kind {
            ComponentKind::Scheme => self.scheme,
            ComponentKind::Dictionary => self.dictionary,
            ComponentKind::Model => self.model,
            ComponentKind::SelfProgram => self.program,
        }
    }

    /// Each pipeline is that of its component and is well formed.
    pub open spec fn well_formed(self) -> bool {
        forall|kind: ComponentKind|
            (#[trigger] self.pipeline(kind)).kind == kind && self.pipeline(kind).well_formed()
    }

    /// Whether every pipeline has ended.
    pub open spec fn all_finished(self) -> bool {
        forall|kind: ComponentKind| is_terminal(#[trigger] self.pipeline(kind).state)
    }

    /// Whether the run ends by handing over to the new program: the update
    /// of the program itself was committed.
    pub open spec fn hands_off(self) -> bool {
        self.program.state == PipelineState::Committed
    }

    /// Whether the host application has to initialise itself anew: every
    /// pipeline has ended, the run does not hand over to a new program, and
    /// at least one component other than the program itself was committed.
    pub open spec fn reload_needed(self) -> bool {
        &&& self.all_finished()
        &&& !self.hands_off()
        &&& exists|kind: ComponentKind|
            reload_eligible(kind) && (#[trigger] self.pipeline(kind)).state
                == PipelineState::Committed
    }

    /// What is to be done next in the run. A run that hands over to a new
    /// program ends at once. Otherwise the components are taken in the order
    /// scheme, dictionary, model, program; a pipeline that has ended, however
    /// it ended, gives way to the next. When all have ended the host
    /// application is reloaded if that is needed and was not done yet.
    pub open spec fn run_action(self) -> RunAction {
        if self.hands_off() {
            RunAction::Finished
        } else if !is_terminal(self.scheme.state) {
            RunAction::Component(ComponentKind::Scheme, action_of(self.scheme.state))
        } else if !is_terminal(self.dictionary.state) {
            RunAction::Component(ComponentKind::Dictionary, action_of(self.dictionary.state))
        } else if !is_terminal(self.model.state) {
            RunAction::Component(ComponentKind::Model, action_of(self.model.state))
        } else if !is_terminal(self.program.state) {
            RunAction::Component(ComponentKind::SelfProgram, action_of(self.program.state))
        } else if self.reload_needed() && !self.reloaded {
            RunAction::Reload
        } else {
            RunAction::Finished
        }
    }

    /// Starts a run. Fails where a tool or the directory of the cache is
    /// missing; a run that has started never stops for such a reason.
    pub fn new(paths: &UserPath, config: UpdateConfig, running: &str, ready: Readiness) -> (run:
        Result<UpdateChecker, StartupError>)
        ensures
            match run {
                Ok(checker) => {
                    &&& startup_error(ready) is None
                    &&& checker.well_formed()
                    &&& checker.cache_dir@ == cache_dir_of(paths.user@)
                    &&& checker.user_dir@ == paths.user@
                    &&& checker.running@ == running@
                    &&& checker.github_client.config@ == (UpdateConfigView {
                        mirror: resolved_mirror(config.mirror@),
                        ..config@
                    })
                    &&& checker.github_client.curl_path@ == paths.curl@
                    &&& checker.file_ops.zip_path@ == paths.zip@
                    &&& checker.weasel_mgr.weasel_root@ == paths.weasel@
                    &&& checker.weasel_mgr.state == DeployState::Probing
                    &&& !checker.reloaded
                    &&& forall|kind: ComponentKind|
                        {
                            &&& (#[trigger] checker.pipeline(kind)).state == PipelineState::Idle
                            &&& checker.pipeline(kind).candidate is None
                            &&& checker.pipeline(kind).failure is None
                            &&& checker.cache.record(kind) is None
                        }
                },
                Err(error) => startup_error(ready) == Some(error),
            },
    {
        if !ready.curl_present {
            return Err(StartupError::MissingCurl);
        }
        if !ready.zip_present {
            return Err(StartupError::MissingArchiver);
        }
        if !ready.cache_dir_ready {
            return Err(StartupError::CacheDirectory);
        }
        let client: GitHubClient = GitHubClient::new(paths.curl.as_str(), config);
        let mut cache_dir: String = paths.user.clone();
        cache_dir.append("/UpdateCache");
        let checker: UpdateChecker = UpdateChecker {
            cache_dir,
            user_dir: paths.user.clone(),
            running: running.to_owned(),
            github_client: client,
            file_ops: FileOperations::new(paths.zip.as_str()),
            weasel_mgr: WeaselManager::new(paths.weasel.as_str()),
            cache: UpdateCache::new(),
            scheme: Pipeline::new(ComponentKind::Scheme),
            dictionary: Pipeline::new(ComponentKind::Dictionary),
            model: Pipeline::new(ComponentKind::Model),
            program: Pipeline::new(ComponentKind::SelfProgram),
            reloaded: false,
        };
        Ok(checker)
    }

    fn pipeline_of(&self, kind: ComponentKind) -> (pipeline: &Pipeline)
        ensures
            *pipeline == self.pipeline(kind),
    {
        match kind {
            ComponentKind::Scheme => &self.scheme,
            ComponentKind::Dictionary => &self.dictionary,
            ComponentKind::Model => &self.model,
            ComponentKind::SelfProgram => &self.program,
        }
    }

    /// Whether each pipeline is that of its component and is well formed.
    pub fn is_well_formed(&self) -> (sound: bool)
        ensures
            sound == self.well_formed(),
    {
        let kinds: bool = match (
            self.scheme.kind,
            self.dictionary.kind,
            self.model.kind,
            self.program.kind,
        ) {
            (
                ComponentKind::Scheme,
                ComponentKind::Dictionary,
                ComponentKind::Model,
                ComponentKind::SelfProgram,
            ) => true,
            _ => false,
        };
        let sound: bool = kinds && self.scheme.is_well_formed() && self.dictionary.is_well_formed()
            && self.model.is_well_formed() && self.program.is_well_formed();
        proof {
            if sound {
                assert forall|kind: ComponentKind|
                    (#[trigger] self.pipeline(kind)).kind == kind && self.pipeline(
                        kind,
                    ).well_formed() by {}
            } else {
                assert(!(self.pipeline(ComponentKind::Scheme).kind == ComponentKind::Scheme
                    && self.pipeline(ComponentKind::Scheme).well_formed()) || !(self.pipeline(
                    ComponentKind::Dictionary,
                ).kind == ComponentKind::Dictionary && self.pipeline(
                    ComponentKind::Dictionary,
                ).well_formed()) || !(self.pipeline(ComponentKind::Model).kind
                    == ComponentKind::Model && self.pipeline(ComponentKind::Model).well_formed())
                    || !(self.pipeline(ComponentKind::SelfProgram).kind
                    == ComponentKind::SelfProgram && self.pipeline(
                    ComponentKind::SelfProgram,
                ).well_formed()));
            }
        }
        sound
    }

    /// The state of the pipeline of a component.
    pub fn state(&self, kind: ComponentKind) -> (state: PipelineState)
        ensures
            state == self.pipeline(kind).state,
    {
        self.pipeline_of(kind).state
    }

    /// The candidate of a component, once its check has found one that is an
    /// update.
    pub fn candidate(&self, kind: ComponentKind) -> (candidate: Option<UpdateInfo>)
        ensures
            candidate == self.pipeline(kind).candidate,
    {
        match &self.pipeline_of(kind).candidate {
            Some(info) => Some(info.duplicate()),
            None => None,
        }
    }

    /// The query that fetches the releases of a component.
    pub fn release_query(&self, kind: ComponentKind) -> (query: Option<ReleaseQuery>)
        ensures
            match query {
                Some(q) => query_url(component_of(self.github_client.config@, kind)) == Some(
                    q.url@,
                ) && q.scope == query_scope(component_of(self.github_client.config@, kind)),
                None => query_url(component_of(self.github_client.config@, kind)) is None,
            },
    {
        self.github_client.release_query(kind)
    }

    /// Whether a component has to be updated to the remote release that
    /// `remote_info` describes, given whether the artifact that its record
    /// names is in storage.
    pub fn should_update(
        &self,
        remote_info: &UpdateInfo,
        kind: ComponentKind,
        artifact_present: bool,
    ) -> (update: bool)
        ensures
            update == stale(self.cache.record(kind), artifact_present, remote_info.tag@),
    {
        self.cache.should_update(remote_info, kind, artifact_present)
    }

    /// What is to be done next in the run.
    pub fn next(&self) -> (action: RunAction)
        ensures
            action == self.run_action(),
    {
        if self.relaunching() {
            return RunAction::Finished;
        }
        if !self.scheme.finished() {
            return RunAction::Component(ComponentKind::Scheme, self.scheme.action());
        }
        if !self.dictionary.finished() {
            return RunAction::Component(ComponentKind::Dictionary, self.dictionary.action());
        }
        if !self.model.finished() {
            return RunAction::Component(ComponentKind::Model, self.model.action());
        }
        if !self.program.finished() {
            return RunAction::Component(ComponentKind::SelfProgram, self.program.action());
        }
        if self.reload_required() && !self.reloaded {
            RunAction::Reload
        } else {
            RunAction::Finished
        }
    }

    /// Whether the host application has to initialise itself anew.
    pub fn reload_required(&self) -> (required: bool)
        ensures
            required == self.reload_needed(),
    {
        let finished: bool = self.scheme.finished() && self.dictionary.finished()
            && self.model.finished() && self.program.finished();
        let hands_off: bool = self.program.state == PipelineState::Committed;
        let committed: bool = self.scheme.state == PipelineState::Committed
            || self.dictionary.state == PipelineState::Committed || self.model.state
            == PipelineState::Committed;
        proof {
            assert(self.all_finished() == finished) by {
                if finished {
                    assert forall|kind: ComponentKind|
                        is_terminal(#[trigger] self.pipeline(kind).state) by {}
                } else {
                    assert(!is_terminal(self.pipeline(ComponentKind::Scheme).state)
                        || !is_terminal(self.pipeline(ComponentKind::Dictionary).state)
                        || !is_terminal(self.pipeline(ComponentKind::Model).state)
                        || !is_terminal(self.pipeline(ComponentKind::SelfProgram).state));
                }
            }
            if committed {
                let kind = if self.scheme.state == PipelineState::Committed {
                    ComponentKind::Scheme
                } else if self.dictionary.state == PipelineState::Committed {
                    ComponentKind::Dictionary
                } else {
                    ComponentKind::Model
                };
                assert(reload_eligible(kind) && self.pipeline(kind).state
                    == PipelineState::Committed);
            }
        }
        finished && !hands_off && committed
    }

    /// Whether the run ends by handing over to the new program.
    pub fn relaunching(&self) -> (relaunch: bool)
        ensures
            relaunch == self.hands_off(),
    {
        self.program.state == PipelineState::Committed
    }

    /// Takes what came of the last action for the pipeline of one component,
    /// and says what is to be done next in the run. The other pipelines stay
    /// as they are: no component waits for another or fails with it.
    pub fn step(&mut self, kind: ComponentKind, event: PipelineEvent) -> (action: RunAction)
        requires
            old(self).well_formed(),
        ensures
            final(self).well_formed(),
            stepped(
                old(self).pipeline(kind),
                old(self).cache,
                event,
                old(self).github_client.config,
                old(self).running@,
                final(self).pipeline(kind),
                final(self).cache,
            ),
            forall|other: ComponentKind|
                other != kind ==> final(self).pipeline(other) == old(self).pipeline(other),
            final(self).cache_dir == old(self).cache_dir,
            final(self).user_dir == old(self).user_dir,
            final(self).running == old(self).running,
            final(self).github_client == old(self).github_client,
            final(self).file_ops == old(self).file_ops,
            final(self).weasel_mgr == old(self).weasel_mgr,
            final(self).reloaded == old(self).reloaded,
            action == final(self).run_action(),
    {
        assert(old(self).pipeline(kind).kind == kind);
        assert(old(self).pipeline(ComponentKind::Scheme).well_formed());
        assert(old(self).pipeline(ComponentKind::Dictionary).well_formed());
        assert(old(self).pipeline(ComponentKind::Model).well_formed());
        assert(old(self).pipeline(ComponentKind::SelfProgram).well_formed());
        match kind {
            ComponentKind::Scheme => {
                self.scheme.step(event, &self.github_client, &mut self.cache, self.running.as_str());
            },
            ComponentKind::Dictionary => {
                self.dictionary.step(
                    event,
                    &self.github_client,
                    &mut self.cache,
                    self.running.as_str(),
                );
            },
            ComponentKind::Model => {
                self.model.step(event, &self.github_client, &mut self.cache, self.running.as_str());
            },
            ComponentKind::SelfProgram => {
                self.program.step(
                    event,
                    &self.github_client,
                    &mut self.cache,
                    self.running.as_str(),
                );
            },
        }
        assert(self.pipeline(ComponentKind::Scheme).kind == ComponentKind::Scheme);
        assert(self.pipeline(ComponentKind::Dictionary).kind == ComponentKind::Dictionary);
        assert(self.pipeline(ComponentKind::Model).kind == ComponentKind::Model);
        assert(self.pipeline(ComponentKind::SelfProgram).kind == ComponentKind::SelfProgram);
        self.next()
    }

    /// The text under which a record is kept, to be written where the record
    /// of its component is kept.
    pub fn save_update_info(&self, info: &UpdateInfo) -> (text: String)
        ensures
            text@ == record_text(info@),
    {
        encode_record(info)
    }

    /// The arguments with which the archive tool unpacks an archive.
    pub fn extract_zip(&self, zip_path: &str, extract_path: &str) -> (arguments: Vec<String>)
        ensures
            words_of(arguments@) == extract_arguments_of(zip_path@, extract_path@),
    {
        self.file_ops.extract_arguments(zip_path, extract_path)
    }

    /// Takes what came of the last action of the reload of the host
    /// application, and says what is to be done next for it.
    pub fn deploy_weasel(&mut self, event: DeployEvent) -> (action: DeployAction)
        ensures
            *final(self) == (UpdateChecker {
                weasel_mgr: WeaselManager {
                    state: deploy_step(old(self).weasel_mgr.state, event),
                    ..old(self).weasel_mgr
                },
                ..*old(self)
            }),
            action == deploy_action(final(self).weasel_mgr.state),
    {
        self.weasel_mgr.deploy(event)
    }

    /// Notes that the host application was told to initialise itself anew, so
    /// that it is not told a second time in this run.
    pub fn mark_reloaded(&mut self) -> (action: RunAction)
        ensures
            *final(self) == (UpdateChecker { reloaded: true, ..*old(self) }),
            action == final(self).run_action(),
            action != RunAction::Reload,
    {
        self.reloaded = true;
        self.next()
    }

    /// The record of a component as it was read from where it is kept, to be
    /// taken over before the run begins.
    pub fn restore(&mut self, kind: ComponentKind, read: CacheRead)
        ensures
            *final(self) == (UpdateChecker {
                cache: old(self).cache.with_record(kind, record_read(read)),
                ..*old(self)
            }),
    {
        self.cache.restore(kind, read);
    }

    /// The fetch of the candidate of a component: from the address of the
    /// candidate to its file in the directory of the cache, checked against
    /// its checksum where it has one, with the configured credential.
    /// `None` where the component has no candidate.
    pub fn fetcher(&self, kind: ComponentKind) -> (fetcher: Option<ArtifactFetcher>)
        ensures
            match self.pipeline(kind).candidate {
                Some(info) => {
                    &&& fetcher is Some
                    &&& fetcher->0.url@ == info.url@
                    &&& fetcher->0.destination@ == path_in(self.cache_dir@, info.file_name@)
                    &&& fetcher->0.expected_checksum == info.checksum
                    &&& fetcher->0.credential == self.github_client.config.github_cookies
                    &&& fetcher->0.state == FetchState::Probing
                },
                None => fetcher is None,
            },
    {
        match &self.pipeline_of(kind).candidate {
            Some(info) => {
                let mut destination: String = self.cache_dir.clone();
                destination.append("/");
                destination.append(info.file_name.as_str());
                Some(
                    ArtifactFetcher::new(
                        info.url.as_str(),
                        destination.as_str(),
                        &info.checksum,
                        &self.github_client.config.github_cookies,
                    ),
                )
            },
            None => None,
        }
    }

    /// How the candidate of a component is installed once it is fetched. The
    /// scheme is unpacked into the user's data directory, the dictionary into
    /// `dicts` below it, the model is put there as a file under its own name,
    /// and the program is handed over to be put in the place of the running
    /// one. `None` where the component has no candidate.
    pub fn install_plan(&self, kind: ComponentKind) -> (plan: Option<InstallPlan>)
        ensures
            match self.pipeline(kind).candidate {
                Some(info) => plan is Some && match kind {
                    ComponentKind::Scheme => plan->0 matches InstallPlan::ExtractArchive(
                        archive,
                        target,
                    ) && archive@ == path_in(self.cache_dir@, info.file_name@) && target@
                        == self.user_dir@,
                    ComponentKind::Dictionary => plan->0 matches InstallPlan::ExtractArchive(
                        archive,
                        target,
                    ) && archive@ == path_in(self.cache_dir@, info.file_name@) && target@
                        == path_in(self.user_dir@, "dicts"@),
                    ComponentKind::Model => plan->0 matches InstallPlan::ReplaceFile(
                        source,
                        target,
                    ) && source@ == path_in(self.cache_dir@, info.file_name@) && target@
                        == path_in(self.user_dir@, info.file_name@),
                    ComponentKind::SelfProgram => plan->0 matches InstallPlan::HandOff(artifact)
                        && artifact@ == path_in(self.cache_dir@, info.file_name@),
                },
                None => plan is None,
            },
    {
        match &self.pipeline_of(kind).candidate {
            Some(info) => {
                let mut artifact: String = self.cache_dir.clone();
                artifact.append("/");
                artifact.append(info.file_name.as_str());
                let plan: InstallPlan = match kind {
                    ComponentKind::Scheme => InstallPlan::ExtractArchive(
                        artifact,
                        self.user_dir.clone(),
                    ),
                    ComponentKind::Dictionary => {
                        let mut target: String = self.user_dir.clone();
                        target.append("/");
                        target.append("dicts");
                        InstallPlan::ExtractArchive(artifact, target)
                    },
                    ComponentKind::Model => {
                        let mut target: String = self.user_dir.clone();
                        target.append("/");
                        target.append(info.file_name.as_str());
                        InstallPlan::ReplaceFile(artifact, target)
                    },
                    ComponentKind::SelfProgram => InstallPlan::HandOff(artifact),
                };
                Some(plan)
            },
            None => None,
        }
    }

    /// How the update of a component ended, or `None` while it has not.
    pub fn outcome(&self, kind: ComponentKind) -> (outcome: Option<Outcome>)
        requires
            self.pipeline(kind).well_formed(),
        ensures
            outcome == outcome_of(self.pipeline(kind)),
    {
        let pipeline: &Pipeline = self.pipeline_of(kind);
        match pipeline.state {
            PipelineState::UpToDate => Some(Outcome::UpToDate),
            PipelineState::Committed => match &pipeline.candidate {
                Some(info) => Some(Outcome::Committed(info.duplicate())),
                None => None,
            },
            PipelineState::CheckFailed => match &pipeline.failure {
                Some(ReleaseError::Transport) => Some(Outcome::Failed(UpdateError::Transport)),
                Some(ReleaseError::ApiRejected(message)) => Some(
                    Outcome::Failed(UpdateError::ApiRejected(message.clone())),
                ),
                Some(ReleaseError::MalformedResponse) => Some(
                    Outcome::Failed(UpdateError::MalformedResponse),
                ),
                Some(ReleaseError::UnknownRepository) => Some(
                    Outcome::Failed(UpdateError::UnknownRepository),
                ),
                None => None,
            },
            PipelineState::FetchFailed(FetchError::DownloadFailed) => Some(
                Outcome::Failed(UpdateError::DownloadFailed),
            ),
            PipelineState::FetchFailed(FetchError::IntegrityMismatch) => Some(
                Outcome::Failed(UpdateError::IntegrityMismatch),
            ),
            PipelineState::InstallFailed => Some(Outcome::Failed(UpdateError::InstallFailed)),
            _ => None,
        }
    }

    /// How the update of each component ended, in the order scheme,
    /// dictionary, model, program; `None` for one that has not ended.
    pub fn outcomes(&self) -> (report: Vec<(ComponentKind, Option<Outcome>)>)
        requires
            self.well_formed(),
        ensures
            report@ == seq![
                (ComponentKind::Scheme, outcome_of(self.scheme)),
                (ComponentKind::Dictionary, outcome_of(self.dictionary)),
                (ComponentKind::Model, outcome_of(self.model)),
                (ComponentKind::SelfProgram, outcome_of(self.program)),
            ],
    {
        assert(self.pipeline(ComponentKind::Scheme).well_formed());
        assert(self.pipeline(ComponentKind::Dictionary).well_formed());
        assert(self.pipeline(ComponentKind::Model).well_formed());
        assert(self.pipeline(ComponentKind::SelfProgram).well_formed());
        let report: Vec<(ComponentKind, Option<Outcome>)> = vec![
            (ComponentKind::Scheme, self.outcome(ComponentKind::Scheme)),
            (ComponentKind::Dictionary, self.outcome(ComponentKind::Dictionary)),
            (ComponentKind::Model, self.outcome(ComponentKind::Model)),
            (ComponentKind::SelfProgram, self.outcome(ComponentKind::SelfProgram)),
        ];
        report
    }

    /// The address from which the new program can be downloaded by hand,
    /// where the update of the program itself was tried and failed.
    pub fn fallback_url(&self) -> (url: Option<String>)
        ensures
            url == match (self.program.state, self.program.candidate) {
                (PipelineState::FetchFailed(_), Some(info)) => Some(info.url),
                (PipelineState::InstallFailed, Some(info)) => Some(info.url),
                _ => None,
            },
    {
        match self.program.state {
            PipelineState::FetchFailed(_) | PipelineState::InstallFailed => {
                match &self.program.candidate {
                    Some(info) => Some(info.url.clone()),
                    None => None,
                }
            },
            _ => None,
        }
    }

    /// Checks all four components at once, from what the query of each has
    /// given, and tells which of them are due for an update, in the order
    /// scheme, dictionary, model, program. Each pipeline goes from idle
    /// through its check, to stale where its candidate is an update and to
    /// its end otherwise; the check of one component has no effect on that
    /// of another, and no record changes.
    pub fn check_all_updates(
        &mut self,
        scheme: PipelineEvent,
        dictionary: PipelineEvent,
        model: PipelineEvent,
        program: PipelineEvent,
    ) -> (due: Vec<ComponentKind>)
        requires
            old(self).well_formed(),
            forall|kind: ComponentKind|
                (#[trigger] old(self).pipeline(kind)).state == PipelineState::Idle,
        ensures
            final(self).well_formed(),
            checked(*old(self), ComponentKind::Scheme, scheme, *final(self)),
            checked(*old(self), ComponentKind::Dictionary, dictionary, *final(self)),
            checked(*old(self), ComponentKind::Model, model, *final(self)),
            checked(*old(self), ComponentKind::SelfProgram, program, *final(self)),
            final(self).cache == old(self).cache,
            final(self).cache_dir == old(self).cache_dir,
            final(self).user_dir == old(self).user_dir,
            final(self).running == old(self).running,
            final(self).github_client == old(self).github_client,
            final(self).file_ops == old(self).file_ops,
            final(self).weasel_mgr == old(self).weasel_mgr,
            final(self).reloaded == old(self).reloaded,
            due@ == final(self).due_kinds(),
    {
        assert(old(self).pipeline(ComponentKind::Scheme).state == PipelineState::Idle);
        assert(old(self).pipeline(ComponentKind::Dictionary).state == PipelineState::Idle);
        assert(old(self).pipeline(ComponentKind::Model).state == PipelineState::Idle);
        assert(old(self).pipeline(ComponentKind::SelfProgram).state == PipelineState::Idle);
        self.step(ComponentKind::Scheme, PipelineEvent::Proceed);
        self.step(ComponentKind::Scheme, scheme);
        assert(self.pipeline(ComponentKind::Dictionary) == old(self).pipeline(
            ComponentKind::Dictionary,
        ));
        self.step(ComponentKind::Dictionary, PipelineEvent::Proceed);
        self.step(ComponentKind::Dictionary, dictionary);
        assert(self.pipeline(ComponentKind::Model) == old(self).pipeline(ComponentKind::Model));
        self.step(ComponentKind::Model, PipelineEvent::Proceed);
        self.step(ComponentKind::Model, model);
        assert(self.pipeline(ComponentKind::SelfProgram) == old(self).pipeline(
            ComponentKind::SelfProgram,
        ));
        self.step(ComponentKind::SelfProgram, PipelineEvent::Proceed);
        self.step(ComponentKind::SelfProgram, program);
        let mut due: Vec<ComponentKind> = Vec::new();
        if self.scheme.state == PipelineState::Stale {
            due.push(ComponentKind::Scheme);
        }
        if self.dictionary.state == PipelineState::Stale {
            due.push(ComponentKind::Dictionary);
        }
        if self.model.state == PipelineState::Stale {
            due.push(ComponentKind::Model);
        }
        if self.program.state == PipelineState::Stale {
            due.push(ComponentKind::SelfProgram);
        }
        assert(due@ == self.due_kinds());
        due
    }

    /// The components that are due for an update, in the order scheme,
    /// dictionary, model, program.
    pub open spec fn due_kinds(self) -> Seq<ComponentKind> {
        let one = |kind: ComponentKind|
            if self.pipeline(kind).state == PipelineState::Stale {
                seq![kind]
            } else {
                Seq::<ComponentKind>::empty()
            };
        one(ComponentKind::Scheme) + one(ComponentKind::Dictionary) + one(ComponentKind::Model)
            + one(ComponentKind::SelfProgram)
    }
}

/// The script that puts a new program in the place of the running one and
/// starts it: it waits for the running program to end, keeps a copy of it,
/// moves the new program into its place, puts the copy back where that fails,
/// removes the copy, starts the program, and removes itself.
pub open spec fn handoff_script_of(program: Seq<char>, artifact: Seq<char>) -> Seq<char> {
    "@echo off\r\ntimeout /t 3 /nobreak > nul\r\nif exist \""@ + program + "\" copy /y \""@
        + program + "\" \""@ + program + ".backup\" > nul\r\nmove /y \""@ + artifact
        + "\" \""@ + program + "\"\r\nif %errorlevel% neq 0 if exist \""@ + program
        + ".backup\" move /y \""@ + program + ".backup\" \""@ + program
        + "\"\r\nif exist \""@ + program + ".backup\" del \""@ + program
        + ".backup\"\r\nstart \"\" \""@ + program + "\"\r\ndel \"%~f0\"\r\n"@
}

/// The script that puts the new program at `artifact` in the place of the
/// running one at `program` and starts it.
pub fn handoff_script(program: &str, artifact: &str) -> (script: String)
    ensures
        script@ == handoff_script_of(program@, artifact@),
{
    let mut script: String = String::from_str(
        "@echo off\r\ntimeout /t 3 /nobreak > nul\r\nif exist \"",
    );
    script.append(program);
    script.append("\" copy /y \"");
    script.append(program);
    script.append("\" \"");
    script.append(program);
    script.append(".backup\" > nul\r\nmove /y \"");
    script.append(artifact);
    script.append("\" \"");
    script.append(program);
    script.append("\"\r\nif %errorlevel% neq 0 if exist \"");
    script.append(program);
    script.append(".backup\" move /y \"");
    script.append(program);
    script.append(".backup\" \"");
    script.append(program);
    script.append("\"\r\nif exist \"");
    script.append(program);
    script.append(".backup\" del \"");
    script.append(program);
    script.append(".backup\"\r\nstart \"\" \"");
    script.append(program);
    script.append("\"\r\ndel \"%~f0\"\r\n");
    script
}

/// How the check of one component takes its pipeline from idle, in the run
/// `before`, to where it stands in the run `after`. Where the repository of
/// the component is known, that is one step of a pipeline that is checking;
/// where it is not, the check has failed for that reason, whatever the event.
pub open spec fn checked(
    before: UpdateChecker,
    kind: ComponentKind,
    event: PipelineEvent,
    after: UpdateChecker,
) -> bool {
    if repository_known(before.github_client.config, kind) {
        stepped(
            Pipeline { state: PipelineState::Checking, ..before.pipeline(kind) },
            before.cache,
            event,
            before.github_client.config,
            before.running@,
            after.pipeline(kind),
            before.cache,
        )
    } else {
        after.pipeline(kind) == (Pipeline {
            state: PipelineState::CheckFailed,
            failure: Some(ReleaseError::UnknownRepository),
            ..before.pipeline(kind)
        })
    }
}

/// The error that stands for the reason why a check failed.
pub open spec fn check_error(failure: ReleaseError) -> UpdateError {
    match failure {
        ReleaseError::Transport => UpdateError::Transport,
        ReleaseError::ApiRejected(message) => UpdateError::ApiRejected(message),
        ReleaseError::MalformedResponse => UpdateError::MalformedResponse,
        ReleaseError::UnknownRepository => UpdateError::UnknownRepository,
    }
}

/// How a pipeline ended, or `None` while it has not.
pub open spec fn outcome_of(pipeline: Pipeline) -> Option<Outcome> {
    match pipeline.state {
        PipelineState::UpToDate => Some(Outcome::UpToDate),
        PipelineState::Committed => Some(Outcome::Committed(pipeline.candidate->0)),
        PipelineState::CheckFailed => Some(Outcome::Failed(check_error(pipeline.failure->0))),
        PipelineState::FetchFailed(FetchError::DownloadFailed) => Some(
            Outcome::Failed(UpdateError::DownloadFailed),
        ),
        PipelineState::FetchFailed(FetchError::IntegrityMismatch) => Some(
            Outcome::Failed(UpdateError::IntegrityMismatch),
        ),
        PipelineState::InstallFailed => Some(Outcome::Failed(UpdateError::InstallFailed)),
        _ => None,
    }
}

/// The host application is told to initialise itself anew only when every
/// pipeline has ended, the program itself was not replaced, and a component
/// other than the program was committed; and never a second time in a run.
/// A run in which the program itself was replaced ends at once.
pub proof fn reload_at_most_once(run: UpdateChecker)
    ensures
        run.run_action() == RunAction::Reload ==> run.reload_needed() && !run.reloaded,
        run.run_action() == RunAction::Reload ==> run.all_finished() && !run.hands_off(),
        run.reloaded ==> run.run_action() != RunAction::Reload,
        run.hands_off() ==> run.run_action() == RunAction::Finished,
        run.run_action() == RunAction::Finished ==> run.all_finished() || run.hands_off(),
{
    if run.run_action() == RunAction::Finished && !run.hands_off() {
        assert forall|kind: ComponentKind| is_terminal(#[trigger] run.pipeline(kind).state) by {}
    }
}

/// A component whose update failed, or for which there was nothing to do,
/// does not count for the reload: a run in which no component other than the
/// program was committed never asks for one.
pub proof fn failures_ask_for_no_reload(run: UpdateChecker)
    requires
        forall|kind: ComponentKind|
            reload_eligible(kind) ==> (#[trigger] run.pipeline(kind)).state
                != PipelineState::Committed,
    ensures
        !run.reload_needed(),
        run.run_action() != RunAction::Reload,
{
}

/// A pipeline that has ended, however it ended, gives way to the next: the
/// run goes on with the first component, in order, that has not ended.
pub proof fn failure_does_not_block(run: UpdateChecker, kind: ComponentKind)
    requires
        !run.hands_off(),
        !is_terminal(run.pipeline(kind).state),
        forall|earlier: ComponentKind|
            comes_before(earlier, kind) ==> is_terminal(#[trigger] run.pipeline(earlier).state),
    ensures
        run.run_action() == RunAction::Component(kind, action_of(run.pipeline(kind).state)),
{
    assert(comes_before(ComponentKind::Scheme, kind) ==> is_terminal(
        run.pipeline(ComponentKind::Scheme).state,
    ));
    assert(comes_before(ComponentKind::Dictionary, kind) ==> is_terminal(
        run.pipeline(ComponentKind::Dictionary).state,
    ));
    assert(comes_before(ComponentKind::Model, kind) ==> is_terminal(
        run.pipeline(ComponentKind::Model).state,
    ));
}

/// The place of a component in the order of a run.
pub open spec fn place_of(kind: ComponentKind) -> int {
    match kind {
        ComponentKind::Scheme => 0,
        ComponentKind::Dictionary => 1,
        ComponentKind::Model => 2,
        ComponentKind::SelfProgram => 3,
    }
}

/// Whether one component is taken before another in a run.
pub open spec fn comes_before(earlier: ComponentKind, later: ComponentKind) -> bool {
    place_of(earlier) < place_of(later)
}

} // verus!
