use crate::file_operations::{FetchError, FetchOutcome};
use crate::github_client::{
    candidate_of, component_of, query_url, ComponentKind, GitHubClient, ReleaseError,
};
use crate::types::{GitHubRelease, UpdateConfig, UpdateInfo, UpdateInfoView};
use crate::update_cache::{stale, UpdateCache};
use vstd::prelude::*;

verus! {

/// Where the update of one component stands.
#[derive(Clone, Copy, Debug, PartialEq, Eq, Structural)]
pub enum PipelineState {
    /// Nothing has been done yet.
    Idle,
    /// The releases of the component are being looked up.
    Checking,
    /// There is nothing to update. Terminal.
    UpToDate,
    /// The releases could not be had. Terminal.
    CheckFailed,
    /// A candidate is newer than what is installed.
    Stale,
    /// The candidate is being fetched.
    Fetching,
    /// The candidate was fetched and passed its check.
    Fetched,
    /// The candidate could not be fetched. Terminal.
    FetchFailed(FetchError),
    /// The candidate is being installed.
    Installing,
    /// The candidate was installed.
    Installed,
    /// The candidate could not be installed. Terminal.
    InstallFailed,
    /// The candidate is installed and recorded. Terminal.
    Committed,
}

/// What is to be done next for one component.
#[derive(Clone, Copy, Debug, PartialEq, Eq, Structural)]
pub enum PipelineAction {
    /// Nothing from outside: go on.
    Advance,
    /// Query the releases, and look whether the recorded artifact is in storage.
    Check,
    /// Fetch the candidate.
    Fetch,
    /// Install the candidate.
    Install,
    /// Write down the record of the candidate; the cache takes it over as
    /// the pipeline goes on.
    Commit,
    /// Nothing: the pipeline has ended.
    Finished,
}

/// What came of the action that a pipeline asked for.
#[derive(Debug, PartialEq, Eq)]
pub enum PipelineEvent {
    /// The pipeline may go on.
    Proceed,
    /// The releases that the query gave, or why it gave none, and whether the
    /// artifact that the record names is in storage.
    Released(Result<Vec<GitHubRelease>, ReleaseError>, bool),
    /// How the fetch ended.
    FetchEnded(FetchOutcome),
    /// Whether the install succeeded.
    InstallEnded(bool),
}

/// The update of one component: its state, the candidate once there is one,
/// and why the check failed where it did.
#[derive(Debug, Clone, PartialEq, Eq)]
pub struct Pipeline {
    pub kind: ComponentKind,
    pub state: PipelineState,
    pub candidate: Option<UpdateInfo>,
    pub failure: Option<ReleaseError>,
}

/// Whether a pipeline has ended in this state.
pub open spec fn is_terminal(state: PipelineState) -> bool {
    match state {
        PipelineState::UpToDate
        | PipelineState::CheckFailed
        | PipelineState::FetchFailed(_)
        | PipelineState::InstallFailed
        | PipelineState::Committed => true,
        _ => false,
    }
}

/// Whether a pipeline in this state works on a candidate.
pub open spec fn has_candidate(state: PipelineState) -> bool {
    match state {
        PipelineState::Stale
        | PipelineState::Fetching
        | PipelineState::Fetched
        | PipelineState::FetchFailed(_)
        | PipelineState::Installing
        | PipelineState::Installed
        | PipelineState::InstallFailed
        | PipelineState::Committed => true,
        _ => false,
    }
}

/// What a pipeline in a state asks for.
pub open spec fn action_of(state: PipelineState) -> PipelineAction {
    match state {
        PipelineState::Idle | PipelineState::Stale | PipelineState::Fetched => {
            PipelineAction::Advance
        },
        PipelineState::Checking => PipelineAction::Check,
        PipelineState::Fetching => PipelineAction::Fetch,
        PipelineState::Installing => PipelineAction::Install,
        PipelineState::Installed => PipelineAction::Commit,
        _ => PipelineAction::Finished,
    }
}

/// Whether the repository of a component can be told from what is
/// configured, so that its releases can be asked for.
pub open spec fn repository_known(config: UpdateConfig, kind: ComponentKind) -> bool {
    query_url(component_of(config@, kind)) is Some
}

/// The candidate that an event brings for a component: that of the releases
/// that it carries, if it carries any.
pub open spec fn offered(
    config: UpdateConfig,
    kind: ComponentKind,
    event: PipelineEvent,
    running: Seq<char>,
) -> Option<UpdateInfoView> {
    match event {
        PipelineEvent::Released(Ok(releases), _) => candidate_of(
            component_of(config@, kind),
            config.mirror@,
            releases@,
            running,
        ),
        _ => None,
    }
}

/// The state of a pipeline after an event, where `candidate` is what the
/// event offers, `local` is the record of the component, and `known` says
/// whether the repository of the component can be told from what is
/// configured. An event that the state does not await changes nothing, and
/// nothing changes a terminal state.
///
/// A component whose repository is unknown fails its check before anything is
/// asked, and so does a check that fails. A check that finds no candidate, or
/// one that is no update, leaves the component up to date. Only a candidate
/// that is an update makes the component stale, only a fetch that ended well
/// leads to the install, and only an install that succeeded is committed.
pub open spec fn next_state(
    state: PipelineState,
    event: PipelineEvent,
    candidate: Option<UpdateInfoView>,
    local: Option<UpdateInfo>,
    known: bool,
) -> PipelineState {
    match state {
        PipelineState::Idle => match event {
            PipelineEvent::Proceed => if known {
                PipelineState::Checking
            } else {
                PipelineState::CheckFailed
            },
            _ => state,
        },
        PipelineState::Checking => match event {
            PipelineEvent::Released(Err(_), _) => PipelineState::CheckFailed,
            PipelineEvent::Released(Ok(_), artifact_present) => match candidate {
                Some(remote) => if stale(local, artifact_present, remote.tag) {
                    PipelineState::Stale
                } else {
                    PipelineState::UpToDate
                },
                None => PipelineState::UpToDate,
            },
            _ => state,
        },
        PipelineState::Stale => match event {
            PipelineEvent::Proceed => PipelineState::Fetching,
            _ => state,
        },
        PipelineState::Fetching => match event {
            PipelineEvent::FetchEnded(FetchOutcome::Failed(error)) => PipelineState::FetchFailed(
                error,
            ),
            PipelineEvent::FetchEnded(_) => PipelineState::Fetched,
            _ => state,
        },
        PipelineState::Fetched => match event {
            PipelineEvent::Proceed => PipelineState::Installing,
            _ => state,
        },
        PipelineState::Installing => match event {
            PipelineEvent::InstallEnded(true) => PipelineState::Installed,
            PipelineEvent::InstallEnded(false) => PipelineState::InstallFailed,
            _ => state,
        },
        PipelineState::Installed => match event {
            PipelineEvent::Proceed => PipelineState::Committed,
            _ => state,
        },
        _ => state,
    }
}

/// How one step takes a pipeline and the cache from `before` to `after`.
///
/// The state moves as `next_state` says. The candidate is taken over from the
/// event as the component becomes stale, and stays as it is otherwise. The
/// reason of a failed check is kept: what the event says, or that the
/// repository is unknown. The cache changes in one step only: as
/// an installed candidate is committed, the candidate becomes the record of
/// the component; the records of the other components never change.
pub open spec fn stepped(
    before: Pipeline,
    cache_before: UpdateCache,
    event: PipelineEvent,
    config: UpdateConfig,
    running: Seq<char>,
    after: Pipeline,
    cache_after: UpdateCache,
) -> bool {
    let brought = offered(config, before.kind, event, running);
    let next = next_state(
        before.state,
        event,
        brought,
        cache_before.record(before.kind),
        repository_known(config, before.kind),
    );
    &&& after.kind == before.kind
    &&& after.state == next
    &&& if before.state == PipelineState::Checking && next == PipelineState::Stale {
        after.candidate is Some && Some(after.candidate->0@) == brought
    } else {
        after.candidate == before.candidate
    }
    &&& if before.state == PipelineState::Checking && next == PipelineState::CheckFailed {
        event matches PipelineEvent::Released(Err(error), _) && after.failure == Some(error)
    } else if before.state == PipelineState::Idle && next == PipelineState::CheckFailed {
        after.failure == Some(ReleaseError::UnknownRepository)
    } else {
        after.failure == before.failure
    }
    &&& if before.state == PipelineState::Installed && next == PipelineState::Committed {
        cache_after == cache_before.with_record(before.kind, before.candidate)
    } else {
        cache_after == cache_before
    }
}

impl Pipeline {
    /// A pipeline in a state that works on a candidate has one, and one
    /// whose check failed knows why.
    pub open spec fn well_formed(self) -> bool {
        &&& has_candidate(self.state) ==> self.candidate is Some
        &&& self.state == PipelineState::CheckFailed ==> self.failure is Some
    }

    /// Whether the pipeline is well formed.
    pub fn is_well_formed(&self) -> (sound: bool)
        ensures
            sound == self.well_formed(),
    {
        let carries: bool = match self.state {
            PipelineState::Stale
            | PipelineState::Fetching
            | PipelineState::Fetched
            | PipelineState::FetchFailed(_)
            | PipelineState::Installing
            | PipelineState::Installed
            | PipelineState::InstallFailed
            | PipelineState::Committed => true,
            _ => false,
        };
        let failed: bool = match self.state {
            PipelineState::CheckFailed => true,
            _ => false,
        };
        (!carries || self.candidate.is_some()) && (!failed || self.failure.is_some())
    }

    /// The pipeline of a component, with nothing done yet.
    pub fn new(kind: ComponentKind) -> (pipeline: Pipeline)
        ensures
            pipeline.kind == kind,
            pipeline.state == PipelineState::Idle,
            pipeline.candidate is None,
            pipeline.failure is None,
            pipeline.well_formed(),
    {
        Pipeline { kind, state: PipelineState::Idle, candidate: None, failure: None }
    }

    /// What is to be done next.
    pub fn action(&self) -> (action: PipelineAction)
        ensures
            action == action_of(self.state),
    {
        match self.state {
            PipelineState::Idle | PipelineState::Stale | PipelineState::Fetched => {
                PipelineAction::Advance
            },
            PipelineState::Checking => PipelineAction::Check,
            PipelineState::Fetching => PipelineAction::Fetch,
            PipelineState::Installing => PipelineAction::Install,
            PipelineState::Installed => PipelineAction::Commit,
            _ => PipelineAction::Finished,
        }
    }

    /// Whether the pipeline has ended.
    pub fn finished(&self) -> (ended: bool)
        ensures
            ended == is_terminal(self.state),
    {
        match self.state {
            PipelineState::UpToDate
            | PipelineState::CheckFailed
            | PipelineState::FetchFailed(_)
            | PipelineState::InstallFailed
            | PipelineState::Committed => true,
            _ => false,
        }
    }

    /// Takes what came of the last action, and says what is to be done next.
    /// `client` tells the candidate of the releases that a check brought,
    /// `running` is the version of the running program, and `cache` holds the
    /// records, of which that of this component is replaced as its candidate
    /// is committed.
    pub fn step(
        &mut self,
        event: PipelineEvent,
        client: &GitHubClient,
        cache: &mut UpdateCache,
        running: &str,
    ) -> (action: PipelineAction)
        requires
            old(self).well_formed(),
        ensures
            final(self).well_formed(),
            stepped(
                *old(self),
                *old(cache),
                event,
                client.config,
                running@,
                *final(self),
                *final(cache),
            ),
            action == action_of(final(self).state),
    {
        match self.state {
            PipelineState::Idle => match event {
                PipelineEvent::Proceed => {
                    if client.release_query(self.kind).is_some() {
                        self.state = PipelineState::Checking;
                    } else {
                        self.failure = Some(ReleaseError::UnknownRepository);
                        self.state = PipelineState::CheckFailed;
                    }
                },
                _ => {},
            },
            PipelineState::Checking => match event {
                PipelineEvent::Released(Err(error), _) => {
                    self.failure = Some(error);
                    self.state = PipelineState::CheckFailed;
                },
                PipelineEvent::Released(Ok(releases), artifact_present) => {
                    match client.candidate(self.kind, releases.as_slice(), running) {
                        Some(remote) => {
                            if cache.should_update(&remote, self.kind, artifact_present) {
                                self.candidate = Some(remote);
                                self.state = PipelineState::Stale;
                            } else {
                                self.state = PipelineState::UpToDate;
                            }
                        },
                        None => {
                            self.state = PipelineState::UpToDate;
                        },
                    }
                },
                _ => {},
            },
            PipelineState::Stale => match event {
                PipelineEvent::Proceed => {
                    self.state = PipelineState::Fetching;
                },
                _ => {},
            },
            PipelineState::Fetching => match event {
                PipelineEvent::FetchEnded(FetchOutcome::Failed(error)) => {
                    self.state = PipelineState::FetchFailed(error);
                },
                PipelineEvent::FetchEnded(_) => {
                    self.state = PipelineState::Fetched;
                },
                _ => {},
            },
            PipelineState::Fetched => match event {
                PipelineEvent::Proceed => {
                    self.state = PipelineState::Installing;
                },
                _ => {},
            },
            PipelineState::Installing => match event {
                PipelineEvent::InstallEnded(true) => {
                    self.state = PipelineState::Installed;
                },
                PipelineEvent::InstallEnded(false) => {
                    self.state = PipelineState::InstallFailed;
                },
                _ => {},
            },
            PipelineState::Installed => match event {
                PipelineEvent::Proceed => {
                    match &self.candidate {
                        Some(record) => {
                            cache.commit(record.duplicate(), self.kind);
                        },
                        None => {},
                    }
                    self.state = PipelineState::Committed;
                },
                _ => {},
            },
            _ => {},
        }
        self.action()
    }
}

/// A component becomes stale only out of a check that brought a candidate
/// which is an update over the record.
pub proof fn stale_only_when_update_is_due(
    state: PipelineState,
    event: PipelineEvent,
    candidate: Option<UpdateInfoView>,
    local: Option<UpdateInfo>,
    known: bool,
)
    requires
        state != PipelineState::Stale,
        next_state(state, event, candidate, local, known) == PipelineState::Stale,
    ensures
        state == PipelineState::Checking,
        candidate is Some,
        event matches PipelineEvent::Released(Ok(_), artifact_present) && stale(
            local,
            artifact_present,
            candidate->0.tag,
        ),
{
}

/// A candidate is committed only after its install has succeeded, and is
/// installed only after its fetch has ended well: each of the three states is
/// entered from the one before it alone.
pub proof fn commit_follows_install(
    state: PipelineState,
    event: PipelineEvent,
    candidate: Option<UpdateInfoView>,
    local: Option<UpdateInfo>,
    known: bool,
)
    ensures
        state != PipelineState::Committed && next_state(state, event, candidate, local, known)
            == PipelineState::Committed ==> state == PipelineState::Installed,
        state != PipelineState::Installed && next_state(state, event, candidate, local, known)
            == PipelineState::Installed ==> state == PipelineState::Installing && event
            == PipelineEvent::InstallEnded(true),
        state != PipelineState::Installing && next_state(state, event, candidate, local, known)
            == PipelineState::Installing ==> state == PipelineState::Fetched,
        state != PipelineState::Fetched && next_state(state, event, candidate, local, known)
            == PipelineState::Fetched ==> state == PipelineState::Fetching && (event matches PipelineEvent::FetchEnded(
            outcome,
        ) && !(outcome is Failed)),
{
}

/// The cache changes only as a candidate is committed: a pipeline that fails
/// or finds nothing to do leaves every record as it was.
pub proof fn cache_changes_only_on_commit(
    before: Pipeline,
    cache_before: UpdateCache,
    event: PipelineEvent,
    config: UpdateConfig,
    running: Seq<char>,
    after: Pipeline,
    cache_after: UpdateCache,
)
    requires
        stepped(before, cache_before, event, config, running, after, cache_after),
    ensures
        cache_after != cache_before ==> before.state == PipelineState::Installed && after.state
            == PipelineState::Committed,
        forall|other: ComponentKind|
            other != before.kind ==> cache_after.record(other) == cache_before.record(other),
{
}

/// No step removes a record: a component that has one keeps one, and the
/// record of a component whose candidate is committed is that candidate.
pub proof fn records_are_never_removed(
    before: Pipeline,
    cache_before: UpdateCache,
    event: PipelineEvent,
    config: UpdateConfig,
    running: Seq<char>,
    after: Pipeline,
    cache_after: UpdateCache,
    kind: ComponentKind,
)
    requires
        before.well_formed(),
        stepped(before, cache_before, event, config, running, after, cache_after),
    ensures
        cache_before.record(kind) is Some ==> cache_after.record(kind) is Some,
        before.state == PipelineState::Installed && after.state == PipelineState::Committed
            ==> cache_after.record(before.kind) == after.candidate,
{
}

/// A component whose repository cannot be told from what is configured fails
/// its check as soon as its pipeline begins, before anything is asked, and
/// has then ended; every other pipeline begins its check as usual.
pub proof fn unknown_repository_fails_the_check(
    candidate: Option<UpdateInfoView>,
    local: Option<UpdateInfo>,
    known: bool,
)
    ensures
        next_state(PipelineState::Idle, PipelineEvent::Proceed, candidate, local, known) == if known {
            PipelineState::Checking
        } else {
            PipelineState::CheckFailed
        },
        is_terminal(PipelineState::CheckFailed),
        action_of(PipelineState::CheckFailed) == PipelineAction::Finished,
{
}

/// Nothing changes a pipeline that has ended.
pub proof fn terminal_states_are_final(
    state: PipelineState,
    event: PipelineEvent,
    candidate: Option<UpdateInfoView>,
    local: Option<UpdateInfo>,
    known: bool,
)
    requires
        is_terminal(state),
    ensures
        next_state(state, event, candidate, local, known) == state,
        action_of(state) == PipelineAction::Finished,
{
}

} // verus!
