use toshi_node::bootstrap::{
    decide_startup, exit_status, storage_action, StartupDecision, StorageAction, CLEAN_EXIT,
    FATAL_STARTUP_EXIT,
};
use toshi_node::identity::resolve_identity;
use toshi_node::plan::{launch_plan, Launch};
use toshi_node::registrar::{Registrar, RegistrationStage, RegistrationStep};
use toshi_node::settings::{Role, Settings};
use toshi_node::shutdown::{
    Phase, ShutdownAction, ShutdownCoordinator, ShutdownEvent, TerminationKind,
};

fn settings(master: bool, clustering: bool, auto_commit: u64, port: u16) -> Settings {
    Settings {
        master,
        host: String::from("0.0.0.0"),
        port,
        path: String::from("data/"),
        log_level: String::from("info"),
        consul_addr: String::from("127.0.0.1:8500"),
        cluster_name: String::from("kitsune"),
        place_addr: String::from("0.0.0.0:7000"),
        enable_clustering: clustering,
        auto_commit_duration: auto_commit,
    }
}

fn count(plan: &[Launch], l: Launch) -> usize {
    plan.iter().filter(|x| **x == l).count()
}

#[test]
fn every_role_and_clustering_has_one_primary() {
    for master in [true, false] {
        for clustering in [true, false] {
            let plan = launch_plan(&settings(master, clustering, 0, 8080));
            let primaries = count(&plan, Launch::ServeRouter) + count(&plan, Launch::ServeRpc);
            assert_eq!(primaries, 1);
            assert_eq!(count(&plan, Launch::ServeRouter), usize::from(master));
            assert_eq!(count(&plan, Launch::ServeRpc), usize::from(!master));
            assert_eq!(count(&plan, Launch::SpawnPlacement), usize::from(master && clustering));
            let last = *plan.last().unwrap();
            assert!(last == Launch::ServeRouter || last == Launch::ServeRpc);
        }
    }
}

#[test]
fn zero_interval_starts_no_commit_scheduler() {
    for clustering in [true, false] {
        let plan = launch_plan(&settings(true, clustering, 0, 8080));
        assert_eq!(count(&plan, Launch::StartCommitScheduler), 0);
    }
}

#[test]
fn positive_interval_starts_one_commit_scheduler_before_router() {
    for clustering in [true, false] {
        let plan = launch_plan(&settings(true, clustering, 5, 8080));
        assert_eq!(count(&plan, Launch::StartCommitScheduler), 1);
        let k = plan.iter().position(|l| *l == Launch::StartCommitScheduler).unwrap();
        let m = plan.iter().position(|l| *l == Launch::ServeRouter).unwrap();
        assert!(k < m);
    }
}

#[test]
fn largest_interval_starts_commit_scheduler() {
    let plan = launch_plan(&settings(true, false, u64::MAX, 8080));
    assert_eq!(plan, vec![Launch::StartCommitScheduler, Launch::ServeRouter]);
}

#[test]
fn identity_is_kept_across_two_runs() {
    let first = resolve_identity(None, String::from("id-one"));
    assert_eq!(first.id, "id-one");
    assert!(first.persist);
    let second = resolve_identity(Some(first.id.clone()), String::from("id-two"));
    assert_eq!(second.id, "id-one");
    assert!(!second.persist);
}

#[test]
fn two_termination_requests_clear_once() {
    let mut c = ShutdownCoordinator::new();
    let events = vec![
        ShutdownEvent::TerminationRequested(TerminationKind::Interrupt),
        ShutdownEvent::TerminationRequested(TerminationKind::Terminate),
        ShutdownEvent::NotificationReceived,
        ShutdownEvent::NotificationReceived,
        ShutdownEvent::CleanupDone,
    ];
    let actions = c.handle_all(&events);
    assert_eq!(
        actions,
        vec![
            ShutdownAction::Notify,
            ShutdownAction::Ignore,
            ShutdownAction::ClearCatalog,
            ShutdownAction::Ignore,
            ShutdownAction::HaltRuntime,
        ]
    );
    assert!(c.is_halted());
}

#[test]
fn primary_end_then_request_notifies_once() {
    let mut c = ShutdownCoordinator::new();
    assert_eq!(c.handle(ShutdownEvent::PrimaryEnded), ShutdownAction::Notify);
    assert_eq!(c.phase(), Phase::RaceResolved);
    assert_eq!(
        c.handle(ShutdownEvent::TerminationRequested(TerminationKind::CtrlC)),
        ShutdownAction::Ignore
    );
    assert_eq!(c.phase(), Phase::RaceResolved);
}

#[test]
fn events_out_of_turn_are_ignored() {
    let mut c = ShutdownCoordinator::new();
    assert_eq!(c.handle(ShutdownEvent::NotificationReceived), ShutdownAction::Ignore);
    assert_eq!(c.handle(ShutdownEvent::CleanupDone), ShutdownAction::Ignore);
    assert_eq!(c.phase(), Phase::Running);
    assert!(!c.is_halted());
}

#[test]
fn no_events_no_actions() {
    let mut c = ShutdownCoordinator::new();
    assert_eq!(c.handle_all(&Vec::new()), Vec::new());
    assert_eq!(c.phase(), Phase::Running);
}

#[test]
fn missing_path_is_created() {
    assert_eq!(storage_action(false), StorageAction::CreateDirectory);
}

#[test]
fn existing_path_is_left_alone() {
    assert_eq!(storage_action(true), StorageAction::UseExisting);
}

#[test]
fn scenario_coordinator_without_clustering() {
    let s = settings(true, false, 0, 8080);
    assert_eq!(s.role(), Role::Coordinator);
    let e = s.bind_endpoint();
    assert_eq!(e.host, "0.0.0.0");
    assert_eq!(e.port, 8080);
    match decide_startup(&s, true) {
        StartupDecision::Serve(plan) => assert_eq!(plan, vec![Launch::ServeRouter]),
        StartupDecision::Exit(_) => panic!("startup should go on"),
    }
    let mut c = ShutdownCoordinator::new();
    let actions = c.handle_all(&vec![
        ShutdownEvent::TerminationRequested(TerminationKind::Terminate),
        ShutdownEvent::NotificationReceived,
        ShutdownEvent::CleanupDone,
    ]);
    assert_eq!(actions.iter().filter(|a| **a == ShutdownAction::ClearCatalog).count(), 1);
    assert_eq!(*actions.last().unwrap(), ShutdownAction::HaltRuntime);
    assert_eq!(exit_status(true), 0);
}

#[test]
fn scenario_data_node() {
    let s = settings(false, false, 0, 9000);
    assert_eq!(s.role(), Role::DataNode);
    let e = s.bind_endpoint();
    assert_eq!(e.host, "0.0.0.0");
    assert_eq!(e.port, 9000);
    assert_eq!(launch_plan(&s), vec![Launch::ServeRpc]);
}

#[test]
fn data_node_ignores_clustering_and_interval() {
    assert_eq!(launch_plan(&settings(false, true, 30, 9000)), vec![Launch::ServeRpc]);
}

#[test]
fn scenario_coordinator_with_clustering() {
    let s = settings(true, true, 0, 8080);
    assert_eq!(
        launch_plan(&s),
        vec![Launch::Register, Launch::SpawnPlacement, Launch::ServeRouter]
    );
    let s = settings(true, true, 10, 8080);
    assert_eq!(
        launch_plan(&s),
        vec![
            Launch::Register,
            Launch::StartCommitScheduler,
            Launch::SpawnPlacement,
            Launch::ServeRouter
        ]
    );
}

#[test]
fn scenario_catalog_failure_exits_with_one() {
    let s = settings(true, true, 10, 8080);
    match decide_startup(&s, false) {
        StartupDecision::Exit(code) => {
            assert_eq!(code, 1);
            assert_eq!(code, FATAL_STARTUP_EXIT);
        }
        StartupDecision::Serve(_) => panic!("startup should stop"),
    }
}

#[test]
fn cleanup_fault_exits_nonzero() {
    assert_ne!(exit_status(false), 0);
    assert_eq!(exit_status(true), CLEAN_EXIT);
}

#[test]
fn handshake_completes_in_order() {
    let mut r = Registrar::new();
    let mut calls = Vec::new();
    while let Some(step) = r.next_step() {
        calls.push(step);
        r.record(true);
    }
    assert_eq!(
        calls,
        vec![
            RegistrationStep::BuildClient,
            RegistrationStep::RegisterCluster,
            RegistrationStep::ResolveIdentity,
            RegistrationStep::RegisterNode,
        ]
    );
    assert_eq!(r.stage(), RegistrationStage::NodeRegistered);
    assert!(!r.is_abandoned());
}

#[test]
fn handshake_abandoned_at_failed_step() {
    let mut r = Registrar::new();
    assert_eq!(r.next_step(), Some(RegistrationStep::BuildClient));
    r.record(true);
    assert_eq!(r.next_step(), Some(RegistrationStep::RegisterCluster));
    r.record(false);
    assert!(r.is_abandoned());
    assert_eq!(r.stage(), RegistrationStage::ClientBuilt);
    assert_eq!(r.next_step(), None);
    r.record(true);
    assert_eq!(r.stage(), RegistrationStage::ClientBuilt);
    assert_eq!(r.next_step(), None);
}

#[test]
fn handshake_client_build_failure_stops_everything() {
    let mut r = Registrar::new();
    r.record(false);
    assert_eq!(r.stage(), RegistrationStage::Unregistered);
    assert_eq!(r.next_step(), None);
}
