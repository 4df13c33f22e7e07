use rime_wanxiang_updater::types::{UpdateConfig, UserPath};
use rime_wanxiang_updater::update_checker::{Readiness, UpdateChecker};
use rime_wanxiang_updater::weasel_manager::{
    DeployAction, DeployEvent, DeployState, WeaselManager, START_DELAY_SECONDS,
    STOP_SETTLE_SECONDS,
};

#[test]
fn reload_begins_by_looking_for_the_deployer() {
    let m = WeaselManager::new("C:/w");
    assert_eq!(m.weasel_root, "C:/w");
    assert_eq!(m.state, DeployState::Probing);
    assert_eq!(m.action(), DeployAction::ProbeDeployer);
    assert_eq!(m.deployer_path(), "C:/w/WeaselDeployer.exe");
    assert_eq!(m.server_path(), "C:/w/WeaselServer.exe");
    assert_eq!(STOP_SETTLE_SECONDS, 2);
    assert_eq!(START_DELAY_SECONDS, 1);
}

#[test]
fn reload_stops_deploys_and_starts_again() {
    let mut m = WeaselManager::new("C:/w");
    assert_eq!(m.deploy(DeployEvent::Probed(true)), DeployAction::StopService);
    assert_eq!(m.deploy(DeployEvent::Stopped), DeployAction::RunDeployer);
    assert_eq!(m.deploy(DeployEvent::Deployed(true)), DeployAction::StartService);
    assert_eq!(m.deploy(DeployEvent::Started), DeployAction::Finished(true));
    assert_eq!(m.state, DeployState::Done(true));
    assert_eq!(m.deploy(DeployEvent::Deployed(false)), DeployAction::Finished(true));
}

#[test]
fn reload_fails_without_a_deployer() {
    let mut m = WeaselManager::new("C:/w");
    assert_eq!(m.deploy(DeployEvent::Probed(false)), DeployAction::Finished(false));
    assert_eq!(m.deploy(DeployEvent::Stopped), DeployAction::Finished(false));
    assert_eq!(m.deploy(DeployEvent::Started), DeployAction::Finished(false));
}

#[test]
fn reload_fails_where_the_deployer_fails_and_starts_nothing() {
    let mut m = WeaselManager::new("C:/w");
    m.deploy(DeployEvent::Probed(true));
    m.deploy(DeployEvent::Stopped);
    assert_eq!(m.deploy(DeployEvent::Deployed(false)), DeployAction::Finished(false));
    assert_eq!(m.deploy(DeployEvent::Started), DeployAction::Finished(false));
}

#[test]
fn reload_ignores_events_that_it_does_not_await() {
    let mut m = WeaselManager::new("C:/w");
    assert_eq!(m.deploy(DeployEvent::Stopped), DeployAction::ProbeDeployer);
    assert_eq!(m.deploy(DeployEvent::Deployed(true)), DeployAction::ProbeDeployer);
    assert_eq!(m.deploy(DeployEvent::Started), DeployAction::ProbeDeployer);
    m.deploy(DeployEvent::Probed(true));
    assert_eq!(m.deploy(DeployEvent::Probed(false)), DeployAction::StopService);
    assert_eq!(m.deploy(DeployEvent::Started), DeployAction::StopService);
    m.deploy(DeployEvent::Stopped);
    assert_eq!(m.deploy(DeployEvent::Stopped), DeployAction::RunDeployer);
    assert_eq!(m.deploy(DeployEvent::Started), DeployAction::RunDeployer);
}

#[test]
fn run_leads_the_reload_of_its_host() {
    let paths = UserPath {
        user: "C:/u".to_string(),
        weasel: "C:/w".to_string(),
        config: "C:/u/updater_conf.ini".to_string(),
        curl: "C:/w/curl.exe".to_string(),
        zip: "C:/w/7z.exe".to_string(),
    };
    let ready = Readiness { curl_present: true, zip_present: true, cache_dir_ready: true };
    let mut run = UpdateChecker::new(&paths, UpdateConfig::default(), "1.0.0", ready).unwrap();
    assert_eq!(run.weasel_mgr, WeaselManager::new("C:/w"));
    assert_eq!(run.deploy_weasel(DeployEvent::Probed(true)), DeployAction::StopService);
    assert_eq!(run.deploy_weasel(DeployEvent::Stopped), DeployAction::RunDeployer);
    assert_eq!(run.deploy_weasel(DeployEvent::Deployed(true)), DeployAction::StartService);
    assert_eq!(run.deploy_weasel(DeployEvent::Started), DeployAction::Finished(true));
    assert!(!run.reloaded);
    let arguments = run.extract_zip("C:/u/UpdateCache/a.zip", "C:/u/dicts");
    assert_eq!(arguments, vec!["x", "C:/u/UpdateCache/a.zip", "-oC:/u/dicts", "-y"]);
    assert!(run.is_well_formed());
}
