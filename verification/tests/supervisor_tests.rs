use kiro2api_core::arbiter::ArbiterAction;
use kiro2api_core::credentials::Account;
use kiro2api_core::errors::SidecarError;
use kiro2api_core::state::{Kiro2ApiRuntime, SupervisorCore};
use kiro2api_core::supervisor::{
    classify_health, finish_start, get_kiro2api_status, health_url, plan_start,
    start_kiro2api_service, stop_kiro2api_service, Kiro2ApiStartParams, StartAction, StartEvent,
    StoreReadError,
};

fn runtime() -> Kiro2ApiRuntime {
    Kiro2ApiRuntime {
        pid: 4242,
        port: 8080,
        project_path: "/bin/kiro-rs".to_string(),
        log_path: "/dd/kiro2api.log".to_string(),
        shared_accounts_file: "/dd/accounts.json".to_string(),
        api_key: "sk-default-key".to_string(),
    }
}

fn params(data_dir: &str, port: u16) -> Kiro2ApiStartParams {
    Kiro2ApiStartParams {
        project_path: None,
        port: Some(port),
        api_key: None,
        admin_key: None,
        data_dir: Some(data_dir.to_string()),
        region: None,
        kiro_version: None,
        proxy_url: None,
    }
}

fn usable_account() -> Account {
    Account {
        email: "a@example.com".to_string(),
        status: "ok".to_string(),
        provider: None,
        refresh_token: Some("tok".to_string()),
        access_token: None,
        profile_arn: None,
        expires_at: None,
        client_id: None,
        client_secret: None,
        region: None,
        subscription_title: None,
        subscription_name: None,
        subscription_type: None,
    }
}

#[test]
fn second_start_without_stop_is_already_running() {
    let mut core = SupervisorCore::new();
    assert!(core.begin_start().is_ok());
    core.record_started(runtime());
    // The first instance's process is still alive.
    core.cleanup_if_exited(false);
    match start_kiro2api_service(&core, &None, "/home") {
        Err(SidecarError::AlreadyRunning) => {}
        Err(other) => panic!("expected AlreadyRunning, got {:?}", other),
        Ok(_) => panic!("expected AlreadyRunning, got a sequence"),
    }
    // Once the child has exited, the lazy sweep clears the way.
    core.cleanup_if_exited(true);
    assert!(start_kiro2api_service(&core, &None, "/home").is_ok());
}

#[test]
fn stop_is_idempotent_and_never_errs_on_nothing_running() {
    let mut core = SupervisorCore::new();
    core.record_started(runtime());
    let (taken, mut arb, act) = stop_kiro2api_service(&mut core, None);
    assert!(taken.is_some());
    assert!(matches!(act, ArbiterAction::Scan));
    arb.feed_scan(Ok(Vec::new()));
    assert!(matches!(arb.outcome, Some(Ok(()))));
    let st = get_kiro2api_status(&core.snapshot(), false);
    assert!(!st.running);
    // A second stop, with nothing running, is the same non-running answer
    // and no error.
    let (taken, mut arb, _) = stop_kiro2api_service(&mut core, Some(8080));
    assert!(taken.is_none());
    arb.feed_scan(Ok(Vec::new()));
    assert!(matches!(arb.outcome, Some(Ok(()))));
    let st = get_kiro2api_status(&core.snapshot(), false);
    assert!(!st.running);
    assert_eq!(st.pid, None);
    assert_eq!(st.url, None);
}

#[test]
fn status_reports_the_recorded_instance() {
    let st = get_kiro2api_status(&Some(runtime()), true);
    assert!(st.running);
    assert_eq!(st.pid, Some(4242));
    assert_eq!(st.port, Some(8080));
    assert_eq!(st.url.as_deref(), Some("http://127.0.0.1:8080"));
    assert_eq!(st.project_path.as_deref(), Some("/bin/kiro-rs"));
    assert_eq!(st.log_path.as_deref(), Some("/dd/kiro2api.log"));
    assert!(st.healthy);
    let st = get_kiro2api_status(&None, false);
    assert!(!st.running && !st.healthy);
    assert_eq!(st.port, None);
}

#[test]
fn health_probe_classification() {
    assert!(classify_health(Some(200)));
    assert!(classify_health(Some(204)));
    assert!(classify_health(Some(299)));
    assert!(!classify_health(Some(300)));
    assert!(!classify_health(Some(404)));
    assert!(!classify_health(Some(199)));
    assert!(!classify_health(None));
    assert_eq!(health_url(9123), "http://127.0.0.1:9123/v1/models");
}

#[test]
fn plan_fills_every_default() {
    let plan = plan_start(&None, "/home/user");
    assert_eq!(plan.port, 8080);
    assert_eq!(plan.config.host, "127.0.0.1");
    assert_eq!(plan.config.region, "us-east-1");
    assert_eq!(plan.config.kiro_version, "0.9.2");
    assert_eq!(plan.config.api_key, "sk-default-key");
    assert_eq!(plan.config.admin_api_key, "admin-default-key");
    assert_eq!(plan.config.proxy_url, None);
    assert_eq!(plan.config.load_balancing_mode, "priority");
    assert_eq!(plan.config.tls_backend, "rustls");
    assert!(plan.data_dir.ends_with(".kiro-account-manager/kiro-rs"));
    assert!(plan.shared_accounts_file.ends_with(".kiro-account-manager/accounts.json"));
    assert_eq!(plan.config_path, format!("{}/config.json", plan.data_dir));
    assert_eq!(plan.log_path, format!("{}/kiro2api.log", plan.data_dir));
}

#[test]
fn plan_honors_given_values_and_normalizes_the_proxy() {
    let mut p = params("/dd", 9000);
    p.region = Some("eu-central-1".to_string());
    p.proxy_url = Some("  http://proxy:1 ".to_string());
    let plan = plan_start(&Some(p), "/home/user");
    assert_eq!(plan.port, 9000);
    assert_eq!(plan.config.port, 9000);
    assert_eq!(plan.config.region, "eu-central-1");
    assert_eq!(plan.config.proxy_url.as_deref(), Some("http://proxy:1"));
    assert_eq!(plan.data_dir, "/dd");
    assert_eq!(plan.credentials_path, "/dd/credentials.json");
}

#[test]
fn start_sequence_runs_in_order_and_records_the_spawn() {
    let mut core = SupervisorCore::new();
    let (mut seq, act) =
        start_kiro2api_service(&core, &Some(params("/dd", 9000)), "/home/user").unwrap();
    assert!(matches!(act, StartAction::RunResolver { .. }));
    let act = seq.feed(StartEvent::Resolved { result: Ok("/bin/kiro-rs".to_string()) });
    match act {
        StartAction::EnsureExecutable { path } => assert_eq!(path, "/bin/kiro-rs"),
        other => panic!("expected the permission step, got {:?}", other),
    }
    // Materialization comes before port arbitration.
    let act = seq.feed(StartEvent::ExecutableEnsured { result: Ok(()) });
    assert!(matches!(act, StartAction::ReadStore { .. }));
    let act = seq.feed(StartEvent::StoreRead { result: Ok(vec![usable_account()]) });
    match act {
        StartAction::WriteSnapshot { data_dir, config_path, credentials_path, credentials } => {
            assert_eq!(data_dir, "/dd");
            assert_eq!(config_path, "/dd/config.json");
            assert_eq!(credentials_path, "/dd/credentials.json");
            assert_eq!(credentials.len(), 1);
            assert_eq!(credentials[0].refresh_token, "tok");
        }
        other => panic!("expected the snapshot write, got {:?}", other),
    }
    let act = seq.feed(StartEvent::SnapshotWritten { result: Ok(()) });
    match act {
        StartAction::RunArbiter { port, marker_path } => {
            assert_eq!(port, 9000);
            assert_eq!(marker_path, "/dd");
        }
        other => panic!("expected the port arbitration, got {:?}", other),
    }
    let act = seq.feed(StartEvent::PortCleared { result: Ok(()) });
    match act {
        StartAction::OpenLog { path } => assert_eq!(path, "/dd/kiro2api.log"),
        other => panic!("expected the log step, got {:?}", other),
    }
    let act = seq.feed(StartEvent::LogOpened { result: Ok(()) });
    match act {
        StartAction::SpawnChild { binary, config_path, credentials_path, data_dir } => {
            assert_eq!(binary, "/bin/kiro-rs");
            assert_eq!(config_path, "/dd/config.json");
            assert_eq!(credentials_path, "/dd/credentials.json");
            assert_eq!(data_dir, "/dd");
        }
        other => panic!("expected the spawn, got {:?}", other),
    }
    let act = seq.feed(StartEvent::Spawned { result: Ok(31337) });
    assert!(matches!(act, StartAction::Finish));
    let rt = finish_start(&mut core, seq).expect("a successful start records");
    assert_eq!(rt.pid, 31337);
    assert_eq!(rt.port, 9000);
    assert_eq!(rt.project_path, "/bin/kiro-rs");
    assert_eq!(rt.log_path, "/dd/kiro2api.log");
    assert_eq!(rt.api_key, "sk-default-key");
    let recorded = core.snapshot().expect("the slot holds the instance");
    assert_eq!(recorded.pid, 31337);
}

fn begin(core: &SupervisorCore) -> kiro2api_core::supervisor::StartSequence {
    let (seq, _) = start_kiro2api_service(core, &Some(params("/dd", 9000)), "/home").unwrap();
    seq
}

#[test]
fn start_sequence_aborts_at_the_first_failure() {
    let mut core = SupervisorCore::new();

    // A missing store aborts before the port is ever touched.
    let mut seq = begin(&core);
    seq.feed(StartEvent::Resolved { result: Ok("/bin/kiro-rs".to_string()) });
    seq.feed(StartEvent::ExecutableEnsured { result: Ok(()) });
    let act = seq.feed(StartEvent::StoreRead { result: Err(StoreReadError::Missing) });
    assert!(matches!(act, StartAction::Finish));
    match finish_start(&mut core, seq) {
        Err(SidecarError::ConfigMissing { .. }) => {}
        other => panic!("expected ConfigMissing, got {:?}", other),
    }
    assert!(core.snapshot().is_none());

    // A malformed store.
    let mut seq = begin(&core);
    seq.feed(StartEvent::Resolved { result: Ok("/bin/kiro-rs".to_string()) });
    seq.feed(StartEvent::ExecutableEnsured { result: Ok(()) });
    seq.feed(StartEvent::StoreRead {
        result: Err(StoreReadError::Malformed { detail: "bad json".to_string() }),
    });
    match finish_start(&mut core, seq) {
        Err(SidecarError::ConfigInvalid { ref detail }) => assert_eq!(detail, "bad json"),
        other => panic!("expected ConfigInvalid, got {:?}", other),
    }

    // A store with no usable record.
    let mut seq = begin(&core);
    seq.feed(StartEvent::Resolved { result: Ok("/bin/kiro-rs".to_string()) });
    seq.feed(StartEvent::ExecutableEnsured { result: Ok(()) });
    let mut no_secret = usable_account();
    no_secret.refresh_token = None;
    seq.feed(StartEvent::StoreRead { result: Ok(vec![no_secret]) });
    assert!(matches!(seq.outcome, Some(Err(SidecarError::NoUsableCredentials))));

    // A failed write.
    let mut seq = begin(&core);
    seq.feed(StartEvent::Resolved { result: Ok("/bin/kiro-rs".to_string()) });
    seq.feed(StartEvent::ExecutableEnsured { result: Ok(()) });
    seq.feed(StartEvent::StoreRead { result: Ok(vec![usable_account()]) });
    seq.feed(StartEvent::SnapshotWritten { result: Err("disk full".to_string()) });
    match seq.outcome {
        Some(Err(SidecarError::SnapshotWriteFailed { ref detail })) => {
            assert_eq!(detail, "disk full")
        }
        ref other => panic!("expected SnapshotWriteFailed, got {:?}", other),
    }

    // A foreign occupant of the port, found after materialization.
    let mut seq = begin(&core);
    seq.feed(StartEvent::Resolved { result: Ok("/bin/kiro-rs".to_string()) });
    seq.feed(StartEvent::ExecutableEnsured { result: Ok(()) });
    seq.feed(StartEvent::StoreRead { result: Ok(vec![usable_account()]) });
    seq.feed(StartEvent::SnapshotWritten { result: Ok(()) });
    seq.feed(StartEvent::PortCleared {
        result: Err(SidecarError::PortInUse { port: 9000, pids: vec![5] }),
    });
    match finish_start(&mut core, seq) {
        Err(SidecarError::PortInUse { port, ref pids }) => {
            assert_eq!(port, 9000);
            assert_eq!(pids, &vec![5]);
        }
        other => panic!("expected PortInUse, got {:?}", other),
    }
    assert!(core.snapshot().is_none());

    // A refused spawn names the runtime it tried.
    let mut seq = begin(&core);
    seq.feed(StartEvent::Resolved { result: Ok("/bin/kiro-rs".to_string()) });
    seq.feed(StartEvent::ExecutableEnsured { result: Ok(()) });
    seq.feed(StartEvent::StoreRead { result: Ok(vec![usable_account()]) });
    seq.feed(StartEvent::SnapshotWritten { result: Ok(()) });
    seq.feed(StartEvent::PortCleared { result: Ok(()) });
    seq.feed(StartEvent::LogOpened { result: Ok(()) });
    seq.feed(StartEvent::Spawned { result: Err("no such file".to_string()) });
    match seq.outcome {
        Some(Err(SidecarError::SpawnFailed { ref detail })) => {
            assert_eq!(
                detail,
                "failed to start Kiro2API service with runtime '/bin/kiro-rs': no such file"
            );
        }
        ref other => panic!("expected SpawnFailed, got {:?}", other),
    }

    // A resolution failure is surfaced as it came.
    let mut seq = begin(&core);
    seq.feed(StartEvent::Resolved {
        result: Err(SidecarError::RuntimeNotFound { custom_error: None, checked: Vec::new() }),
    });
    assert!(matches!(seq.outcome, Some(Err(SidecarError::RuntimeNotFound { .. }))));

    // LockUnavailable is the guard's own failure, raised by the embedding
    // application; it carries nothing.
    let e = SidecarError::LockUnavailable;
    assert!(matches!(e, SidecarError::LockUnavailable));
}
