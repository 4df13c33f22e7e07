use vstd::prelude::*;

verus! {

/// The seconds to wait after the service was stopped, before the deployer runs.
pub const STOP_SETTLE_SECONDS: u64 = 2;

/// The seconds to wait after the deployer succeeded, before the service starts.
pub const START_DELAY_SECONDS: u64 = 1;

/// Where a reload of the host application stands.
#[derive(Clone, Copy, Debug, PartialEq, Eq, Structural)]
pub enum DeployState {
    /// It is awaited whether the deployer is there.
    Probing,
    /// The stop of the service is awaited.
    Stopping,
    /// The run of the deployer is awaited.
    Deploying,
    /// The start of the service is awaited.
    Starting,
    /// The reload has ended, well or not.
    Done(bool),
}

/// What is to be done next for a reload.
#[derive(Clone, Copy, Debug, PartialEq, Eq, Structural)]
pub enum DeployAction {
    /// Look whether the deployer is there.
    ProbeDeployer,
    /// Stop the service of the host application, and wait for it to settle.
    StopService,
    /// Run the deployer.
    RunDeployer,
    /// Wait a moment, and start the service again.
    StartService,
    /// Nothing: the reload has ended, well or not.
    Finished(bool),
}

/// What came of the action that a reload asked for.
#[derive(Clone, Copy, Debug, PartialEq, Eq, Structural)]
pub enum DeployEvent {
    /// Whether the deployer is there.
    Probed(bool),
    /// The service was stopped.
    Stopped,
    /// Whether the deployer succeeded.
    Deployed(bool),
    /// The service was started.
    Started,
}

/// The state of a reload after an event. Without a deployer nothing is
/// touched and the reload fails. The service is stopped before the deployer
/// runs, and started again only after the deployer succeeded. An event that
/// the state does not await changes nothing.
pub open spec fn deploy_step(state: DeployState, event: DeployEvent) -> DeployState {
    match (state, event) {
        (DeployState::Probing, DeployEvent::Probed(true)) => DeployState::Stopping,
        (DeployState::Probing, DeployEvent::Probed(false)) => DeployState::Done(false),
        (DeployState::Stopping, DeployEvent::Stopped) => DeployState::Deploying,
        (DeployState::Deploying, DeployEvent::Deployed(true)) => DeployState::Starting,
        (DeployState::Deploying, DeployEvent::Deployed(false)) => DeployState::Done(false),
        (DeployState::Starting, DeployEvent::Started) => DeployState::Done(true),
        _ => state,
    }
}

/// What a reload in a state asks for.
pub open spec fn deploy_action(state: DeployState) -> DeployAction {
    match state {
        DeployState::Probing => DeployAction::ProbeDeployer,
        DeployState::Stopping => DeployAction::StopService,
        DeployState::Deploying => DeployAction::RunDeployer,
        DeployState::Starting => DeployAction::StartService,
        DeployState::Done(reloaded) => DeployAction::Finished(reloaded),
    }
}

/// Has the host application initialise itself anew, step by step.
#[derive(Debug, Clone, PartialEq, Eq)]
pub struct WeaselManager {
    pub weasel_root: String,
    pub state: DeployState,
}

impl WeaselManager {
    /// A reload of the host application in the directory `weasel_path` that
    /// has not begun.
    pub fn new(weasel_path: &str) -> (manager: WeaselManager)
        ensures
            manager.weasel_root@ == weasel_path@,
            manager.state == DeployState::Probing,
    {
        WeaselManager { weasel_root: weasel_path.to_owned(), state: DeployState::Probing }
    }

    /// The place of the deployer of the host application.
    pub fn deployer_path(&self) -> (path: String)
        ensures
            path@ == self.weasel_root@ + "/WeaselDeployer.exe"@,
    {
        let mut path: String = self.weasel_root.clone();
        path.append("/WeaselDeployer.exe");
        path
    }

    /// The place of the service of the host application.
    pub fn server_path(&self) -> (path: String)
        ensures
            path@ == self.weasel_root@ + "/WeaselServer.exe"@,
    {
        let mut path: String = self.weasel_root.clone();
        path.append("/WeaselServer.exe");
        path
    }

    /// What is to be done next.
    pub fn action(&self) -> (action: DeployAction)
        ensures
            action == deploy_action(self.state),
    {
        match self.state {
            DeployState::Probing => DeployAction::ProbeDeployer,
            DeployState::Stopping => DeployAction::StopService,
            DeployState::Deploying => DeployAction::RunDeployer,
            DeployState::Starting => DeployAction::StartService,
            DeployState::Done(reloaded) => DeployAction::Finished(reloaded),
        }
    }

    /// Takes what came of the last action, and says what is to be done next.
    pub fn deploy(&mut self, event: DeployEvent) -> (action: DeployAction)
        ensures
            final(self).state == deploy_step(old(self).state, event),
            final(self).weasel_root == old(self).weasel_root,
            action == deploy_action(final(self).state),
    {
        let next: DeployState = match (self.state, event) {
            (DeployState::Probing, DeployEvent::Probed(true)) => DeployState::Stopping,
            (DeployState::Probing, DeployEvent::Probed(false)) => DeployState::Done(false),
            (DeployState::Stopping, DeployEvent::Stopped) => DeployState::Deploying,
            (DeployState::Deploying, DeployEvent::Deployed(true)) => DeployState::Starting,
            (DeployState::Deploying, DeployEvent::Deployed(false)) => DeployState::Done(false),
            (DeployState::Starting, DeployEvent::Started) => DeployState::Done(true),
            _ => self.state,
        };
        self.state = next;
        self.action()
    }
}

/// A reload ends well only by the start of the service, which follows only
/// on a deployer that succeeded; and the deployer runs only after the service
/// was stopped.
pub proof fn reload_succeeds_only_through_the_deployer(state: DeployState, event: DeployEvent)
    ensures
        state != DeployState::Done(true) && deploy_step(state, event) == DeployState::Done(true)
            ==> state == DeployState::Starting && event == DeployEvent::Started,
        state != DeployState::Starting && deploy_step(state, event) == DeployState::Starting
            ==> state == DeployState::Deploying && event == DeployEvent::Deployed(true),
        state != DeployState::Deploying && deploy_step(state, event) == DeployState::Deploying
            ==> state == DeployState::Stopping && event == DeployEvent::Stopped,
        state is Done ==> deploy_step(state, event) == state,
{
}

} // verus!
