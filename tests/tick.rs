use quadit::config::JobConfig;
use quadit::registry::{Admission, InsertOutcome, JobRegistry};
use quadit::tick::{redeploy_needed, Tick, TickAction, TickEvent, TickOutcome, TickPhase};

fn synced(previous: &str, current: &str) -> TickEvent {
    TickEvent::Synced { previous: previous.to_string(), current: current.to_string() }
}

fn unit(name: &str) -> TickEvent {
    TickEvent::UnitResolved { unit: name.to_string() }
}

#[test]
fn decision_follows_identifiers_and_artifact() {
    let a = "aaa".to_string();
    let b = "bbb".to_string();
    assert!(!redeploy_needed(&a, &a, true));
    assert!(redeploy_needed(&a, &a, false));
    assert!(redeploy_needed(&a, &b, true));
    assert!(redeploy_needed(&a, &b, false));
}

#[test]
fn registered_job_skips_bootstrap() {
    let mut t = Tick::new();
    assert_eq!(t.step(TickEvent::Started { registered: true }), TickAction::Sync);
    assert_eq!(t.phase, TickPhase::Syncing);
}

#[test]
fn bootstrap_failure_ends_tick() {
    let mut t = Tick::new();
    assert_eq!(t.step(TickEvent::Started { registered: false }), TickAction::Bootstrap);
    assert_eq!(t.step(TickEvent::Bootstrapped { ok: false }), TickAction::Finish);
    assert_eq!(t.outcome(), Some(TickOutcome::BootstrapFailed));
}

#[test]
fn sync_failure_ends_tick() {
    let mut t = Tick::new();
    t.step(TickEvent::Started { registered: true });
    assert_eq!(t.step(TickEvent::SyncFailed), TickAction::Finish);
    assert_eq!(t.outcome(), Some(TickOutcome::SyncFailed));
}

#[test]
fn unchanged_and_present_is_ignored() {
    let mut t = Tick::new();
    t.step(TickEvent::Started { registered: true });
    assert_eq!(t.step(synced("abc", "abc")), TickAction::CheckArtifact);
    assert_eq!(t.step(TickEvent::ArtifactChecked { present: true }), TickAction::Finish);
    assert_eq!(t.outcome(), Some(TickOutcome::Ignored));
    assert_eq!(t.step(TickEvent::Deployed { ok: true }), TickAction::Finish);
}

#[test]
fn absent_artifact_after_first_bootstrap_deploys() {
    let mut t = Tick::new();
    assert_eq!(t.step(TickEvent::Started { registered: false }), TickAction::Bootstrap);
    assert_eq!(t.step(TickEvent::Bootstrapped { ok: true }), TickAction::Register);
    assert_eq!(t.step(TickEvent::Registered), TickAction::Sync);
    assert_eq!(t.step(synced("abc", "abc")), TickAction::CheckArtifact);
    assert_eq!(t.step(TickEvent::ArtifactChecked { present: false }), TickAction::Deploy);
}

#[test]
fn changed_identifiers_deploy_without_presence_check() {
    let mut t = Tick::new();
    t.step(TickEvent::Started { registered: true });
    assert_eq!(t.step(synced("abc", "def")), TickAction::Deploy);
    assert_eq!(t.phase, TickPhase::Deploying);
}

#[test]
fn deploy_failure_skips_reload_and_restart() {
    let mut t = Tick::new();
    t.step(TickEvent::Started { registered: true });
    t.step(synced("abc", "def"));
    assert_eq!(t.step(TickEvent::Deployed { ok: false }), TickAction::Finish);
    assert_eq!(t.outcome(), Some(TickOutcome::DeployFailed));
}

#[test]
fn reload_failure_still_restarts() {
    let mut t = Tick::new();
    t.step(TickEvent::Started { registered: true });
    t.step(synced("abc", "def"));
    assert_eq!(t.step(TickEvent::Deployed { ok: true }), TickAction::Reload);
    assert_eq!(t.step(TickEvent::Reloaded { ok: false }), TickAction::ResolveUnit);
    assert_eq!(
        t.step(unit("web.service")),
        TickAction::Restart { unit: "web.service".to_string() }
    );
    assert_eq!(t.step(TickEvent::Restarted { ok: true }), TickAction::Finish);
    assert_eq!(t.outcome(), Some(TickOutcome::Deployed { reloaded: false, restarted: true }));
}

#[test]
fn unresolved_unit_skips_restart() {
    for reloaded in [true, false] {
        let mut t = Tick::new();
        t.step(TickEvent::Started { registered: true });
        t.step(synced("abc", "def"));
        t.step(TickEvent::Deployed { ok: true });
        t.step(TickEvent::Reloaded { ok: reloaded });
        assert_eq!(t.step(TickEvent::UnitUnresolved), TickAction::Finish);
        assert_eq!(t.outcome(), Some(TickOutcome::UnitNameFailed));
    }
}

#[test]
fn restart_failure_is_recorded() {
    let mut t = Tick::new();
    t.step(TickEvent::Started { registered: true });
    t.step(synced("abc", "def"));
    t.step(TickEvent::Deployed { ok: true });
    t.step(TickEvent::Reloaded { ok: true });
    t.step(unit("web.service"));
    assert_eq!(t.step(TickEvent::Restarted { ok: false }), TickAction::Finish);
    assert_eq!(t.outcome(), Some(TickOutcome::Deployed { reloaded: true, restarted: false }));
}

#[test]
fn fault_or_out_of_order_event_aborts() {
    let mut t = Tick::new();
    t.step(TickEvent::Started { registered: true });
    assert_eq!(t.step(TickEvent::Fault), TickAction::Finish);
    assert_eq!(t.outcome(), Some(TickOutcome::Aborted));

    let mut u = Tick::new();
    assert_eq!(u.step(TickEvent::Deployed { ok: true }), TickAction::Finish);
    assert_eq!(u.outcome(), Some(TickOutcome::Aborted));
    assert!(u.is_done());
}

/// Drives one tick of job `id`, answering each action from the given results.
fn drive(
    reg: &mut JobRegistry,
    id: u128,
    config: &JobConfig,
    ids: (&str, &str),
    artifact_present: bool,
    calls: &mut Vec<String>,
) -> Option<TickOutcome> {
    let registered = match reg.begin_tick(id) {
        Admission::Skip => return None,
        Admission::Run { registered } => registered,
    };
    let mut t = Tick::new();
    let mut action = t.step(TickEvent::Started { registered });
    loop {
        let event = match action {
            TickAction::Bootstrap => {
                calls.push("bootstrap".to_string());
                TickEvent::Bootstrapped { ok: true }
            }
            TickAction::Register => {
                assert_eq!(reg.insert_if_absent(id, config.duplicate()), InsertOutcome::Inserted);
                TickEvent::Registered
            }
            TickAction::Sync => {
                calls.push("sync".to_string());
                synced(ids.0, ids.1)
            }
            TickAction::CheckArtifact => TickEvent::ArtifactChecked { present: artifact_present },
            TickAction::Deploy => {
                calls.push(format!("deploy {}", config.target_path));
                TickEvent::Deployed { ok: true }
            }
            TickAction::Reload => {
                calls.push("reload".to_string());
                TickEvent::Reloaded { ok: true }
            }
            TickAction::ResolveUnit => unit("hello.service"),
            TickAction::Restart { unit } => {
                calls.push(format!("restart {}", unit));
                TickEvent::Restarted { ok: true }
            }
            TickAction::Finish => break,
        };
        action = t.step(event);
    }
    reg.end_tick(id);
    t.outcome()
}

#[test]
fn three_ticks_end_to_end() {
    let config = JobConfig::new(
        "https://example.com/hello.git".to_string(),
        "main".to_string(),
        "/etc/containers/systemd/hello.container".to_string(),
        "*/5 * * * * *".to_string(),
    );
    let mut reg = JobRegistry::new();
    let id: u128 = 42;

    let mut calls = Vec::new();
    let first = drive(&mut reg, id, &config, ("A", "A"), false, &mut calls);
    assert_eq!(first, Some(TickOutcome::Deployed { reloaded: true, restarted: true }));
    assert_eq!(
        calls,
        vec![
            "bootstrap",
            "sync",
            "deploy /etc/containers/systemd/hello.container",
            "reload",
            "restart hello.service"
        ]
    );

    let mut calls = Vec::new();
    let second = drive(&mut reg, id, &config, ("A", "A"), true, &mut calls);
    assert_eq!(second, Some(TickOutcome::Ignored));
    assert_eq!(calls, vec!["sync"]);

    let mut calls = Vec::new();
    let third = drive(&mut reg, id, &config, ("A", "B"), true, &mut calls);
    assert_eq!(third, Some(TickOutcome::Deployed { reloaded: true, restarted: true }));
    assert_eq!(
        calls,
        vec![
            "sync",
            "deploy /etc/containers/systemd/hello.container",
            "reload",
            "restart hello.service"
        ]
    );
}

#[test]
fn overlapping_trigger_does_not_run() {
    let config = JobConfig::new(
        "u".to_string(),
        "main".to_string(),
        "t.container".to_string(),
        "*/5 * * * * *".to_string(),
    );
    let mut reg = JobRegistry::new();
    assert_eq!(reg.begin_tick(9), Admission::Run { registered: false });
    let mut calls = Vec::new();
    assert_eq!(drive(&mut reg, 9, &config, ("A", "A"), true, &mut calls), None);
    assert!(calls.is_empty());
}

#[test]
fn bootstrap_retried_until_success_then_never_again() {
    let config = JobConfig::new(
        "u".to_string(),
        "main".to_string(),
        "t.container".to_string(),
        "*/5 * * * * *".to_string(),
    );
    let mut reg = JobRegistry::new();
    let id: u128 = 77;
    let mut bootstraps = 0;
    for attempt in 0..5 {
        let registered = match reg.begin_tick(id) {
            Admission::Run { registered } => registered,
            Admission::Skip => panic!("no tick is running"),
        };
        let mut t = Tick::new();
        let mut action = t.step(TickEvent::Started { registered });
        if action == TickAction::Bootstrap {
            bootstraps += 1;
            let ok = attempt >= 2;
            action = t.step(TickEvent::Bootstrapped { ok });
            if ok {
                assert_eq!(action, TickAction::Register);
                reg.insert_if_absent(id, config.duplicate());
                action = t.step(TickEvent::Registered);
            } else {
                assert_eq!(t.outcome(), Some(TickOutcome::BootstrapFailed));
            }
        }
        if action == TickAction::Sync {
            t.step(TickEvent::SyncFailed);
        }
        reg.end_tick(id);
    }
    assert_eq!(bootstraps, 3);
    assert!(reg.is_registered(id));
}
