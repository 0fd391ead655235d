use kiro2api_core::arbiter::{
    cleanup_stale_kiro2api_on_port, is_kiro2api_pid, ArbiterAction, ListenerInfo,
};
use kiro2api_core::errors::SidecarError;

fn listener(pid: u32, cmdline: Option<&str>) -> ListenerInfo {
    ListenerInfo { pid, cmdline: cmdline.map(|c| c.to_string()) }
}

#[test]
fn foreign_listener_is_fatal_and_no_signal_is_sent() {
    let (mut arbiter, act) = cleanup_stale_kiro2api_on_port(8080, Some("/data/kiro".to_string()));
    assert!(matches!(act, ArbiterAction::Scan));
    let act = arbiter.feed_scan(Ok(vec![listener(999, Some("/usr/bin/postgres -D /var/db"))]));
    // The test double: the answered action carries no pid, so nothing was
    // ever signalled.
    assert!(matches!(act, ArbiterAction::Done));
    match arbiter.outcome {
        Some(Err(SidecarError::PortInUse { port, pids })) => {
            assert_eq!(port, 8080);
            assert_eq!(pids, vec![999]);
        }
        other => panic!("expected PortInUse, got {:?}", other),
    }
}

#[test]
fn own_stale_listeners_are_terminated_then_killed_then_cleared() {
    let (mut arbiter, _) = cleanup_stale_kiro2api_on_port(8080, Some("/data/kiro".to_string()));
    let act = arbiter.feed_scan(Ok(vec![listener(41, Some("kiro-rs --config c.json"))]));
    match act {
        ArbiterAction::TermAndWait { pids } => assert_eq!(pids, vec![41]),
        other => panic!("expected the graceful signal, got {:?}", other),
    }
    let act = arbiter.feed_scan(Ok(vec![listener(41, Some("kiro-rs --config c.json"))]));
    match act {
        ArbiterAction::KillAndWait { pids } => assert_eq!(pids, vec![41]),
        other => panic!("expected the forceful signal, got {:?}", other),
    }
    let act = arbiter.feed_scan(Ok(Vec::new()));
    assert!(matches!(act, ArbiterAction::Done));
    assert!(matches!(arbiter.outcome, Some(Ok(()))));
}

#[test]
fn empty_port_is_immediate_success() {
    let (mut arbiter, _) = cleanup_stale_kiro2api_on_port(8080, None);
    let act = arbiter.feed_scan(Ok(Vec::new()));
    assert!(matches!(act, ArbiterAction::Done));
    assert!(matches!(arbiter.outcome, Some(Ok(()))));
}

#[test]
fn surviving_listener_is_a_release_failure() {
    let (mut arbiter, _) = cleanup_stale_kiro2api_on_port(9000, None);
    arbiter.feed_scan(Ok(vec![listener(7, Some("kiro2api serve"))]));
    arbiter.feed_scan(Ok(vec![listener(7, Some("kiro2api serve"))]));
    arbiter.feed_scan(Ok(vec![listener(7, Some("kiro2api serve"))]));
    match arbiter.outcome {
        Some(Err(SidecarError::PortReleaseFailed { port, pids })) => {
            assert_eq!(port, 9000);
            assert_eq!(pids, vec![7]);
        }
        other => panic!("expected PortReleaseFailed, got {:?}", other),
    }
}

#[test]
fn mixed_first_scan_names_only_the_foreign_pids() {
    let (mut arbiter, _) = cleanup_stale_kiro2api_on_port(8080, None);
    let act = arbiter.feed_scan(Ok(vec![
        listener(1, Some("kiro-rs serve")),
        listener(2, Some("postgres")),
        listener(3, Some("nginx")),
    ]));
    assert!(matches!(act, ArbiterAction::Done));
    match arbiter.outcome {
        Some(Err(SidecarError::PortInUse { pids, .. })) => assert_eq!(pids, vec![2, 3]),
        other => panic!("expected PortInUse, got {:?}", other),
    }
}

#[test]
fn unrecognized_survivor_of_the_second_scan_is_not_signalled() {
    // A listener that appears between the scans and is not recognized is
    // neither killed nor an error at that point; only the final scan
    // decides.
    let (mut arbiter, _) = cleanup_stale_kiro2api_on_port(8080, None);
    arbiter.feed_scan(Ok(vec![listener(41, Some("kiro-rs serve"))]));
    let act = arbiter.feed_scan(Ok(vec![
        listener(41, Some("kiro-rs serve")),
        listener(77, Some("postgres")),
    ]));
    match act {
        ArbiterAction::KillAndWait { pids } => assert_eq!(pids, vec![41]),
        other => panic!("expected only the recognized pid, got {:?}", other),
    }
    arbiter.feed_scan(Ok(Vec::new()));
    assert!(matches!(arbiter.outcome, Some(Ok(()))));
}

#[test]
fn failed_enumeration_is_reported() {
    let (mut arbiter, _) = cleanup_stale_kiro2api_on_port(8080, None);
    let act = arbiter.feed_scan(Err("lsof not found".to_string()));
    assert!(matches!(act, ArbiterAction::Done));
    match arbiter.outcome {
        Some(Err(SidecarError::ListenerQueryFailed { port, detail })) => {
            assert_eq!(port, 8080);
            assert_eq!(detail, "lsof not found");
        }
        other => panic!("expected ListenerQueryFailed, got {:?}", other),
    }
}

#[test]
fn classification_recognizes_markers_and_signatures() {
    let marker = Some("/Data/Account-Mgr".to_string());
    // The marker alone recognizes a process, case-insensitively.
    assert!(is_kiro2api_pid(&Some("serve --dir /data/account-mgr/run".to_string()), &marker));
    assert!(!is_kiro2api_pid(&Some("serve --dir /data/other".to_string()), &marker));
    assert!(is_kiro2api_pid(&Some("KIRO2API --serve".to_string()), &None));
    assert!(is_kiro2api_pid(&Some("node src/index.js".to_string()), &None));
    assert!(!is_kiro2api_pid(&Some("node server.js".to_string()), &None));
    assert!(!is_kiro2api_pid(&Some("/usr/bin/postgres".to_string()), &None));
    assert!(!is_kiro2api_pid(&None, &marker));
}
