use kiro2api_core::errors::SidecarError;
use kiro2api_core::resolver::{
    ensure_executable, looks_like_legacy_node_project, resolve_custom_runtime_path,
    resolve_runtime_binary, PathKind, ProbeEvent, ProbeRequest,
};

#[test]
fn override_file_short_circuits_the_search() {
    // An explicit override that resolves consults no bundled or system
    // candidate: every request concerns the override path alone.
    let (mut resolver, req0) = resolve_runtime_binary(
        &Some("/tmp/my-runtime".to_string()),
        &vec!["/app/resources".to_string()],
        &vec!["/usr/bin".to_string()],
    );
    match req0 {
        ProbeRequest::LegacyPair { package_json, index_js } => {
            assert_eq!(package_json, "/tmp/my-runtime/package.json");
            assert_eq!(index_js, "/tmp/my-runtime/src/index.js");
        }
        other => panic!("expected the legacy pair first, got {:?}", other),
    }
    let req1 = resolver.step(&ProbeEvent::LegacyPair { package_json: false, index_js: false });
    match req1 {
        ProbeRequest::StatPath { path } => assert_eq!(path, "/tmp/my-runtime"),
        other => panic!("expected the override's stat next, got {:?}", other),
    }
    let req2 = resolver.step(&ProbeEvent::StatPath { kind: PathKind::File });
    assert!(matches!(req2, ProbeRequest::Settled));
    match resolver.outcome {
        Some(Ok(p)) => assert_eq!(p, "/tmp/my-runtime"),
        other => panic!("expected the override path, got {:?}", other),
    }
    assert_eq!(resolver.checked, vec!["/tmp/my-runtime".to_string()]);
}

#[test]
fn override_directory_probes_its_sub_candidates() {
    let (mut resolver, _) = resolve_runtime_binary(
        &Some("/proj".to_string()),
        &Vec::new(),
        &Vec::new(),
    );
    resolver.step(&ProbeEvent::LegacyPair { package_json: true, index_js: false });
    let req = resolver.step(&ProbeEvent::StatPath { kind: PathKind::Dir });
    match req {
        ProbeRequest::FileFlags { paths } => {
            assert_eq!(
                paths,
                vec![
                    "/proj/kiro-rs".to_string(),
                    "/proj/target/release/kiro-rs".to_string(),
                    "/proj/target/debug/kiro-rs".to_string(),
                    "/proj/bin/kiro-rs".to_string(),
                ]
            );
        }
        other => panic!("expected the sub-candidate flags, got {:?}", other),
    }
    resolver.step(&ProbeEvent::FileFlags { flags: vec![false, true, false, true] });
    match resolver.outcome {
        Some(Ok(p)) => assert_eq!(p, "/proj/target/release/kiro-rs"),
        other => panic!("expected the first sub-candidate hit, got {:?}", other),
    }
}

#[test]
fn legacy_project_is_reported_and_skipped() {
    let (mut resolver, _) = resolve_runtime_binary(
        &Some("/legacy".to_string()),
        &Vec::new(),
        &Vec::new(),
    );
    let req = resolver.step(&ProbeEvent::LegacyPair { package_json: true, index_js: true });
    // The override is abandoned; the search moves straight to the system
    // candidates (there are no bundled bases here).
    match req {
        ProbeRequest::CheckFile { path } => assert_eq!(path, "/opt/homebrew/bin/kiro-rs"),
        other => panic!("expected the first system candidate, got {:?}", other),
    }
    assert_eq!(
        resolver.custom_error.as_deref(),
        Some("legacy Node project path is no longer used by default runtime: /legacy")
    );
}

#[test]
fn exhausted_search_reports_every_checked_path() {
    let (mut resolver, mut req) = resolve_runtime_binary(&None, &Vec::new(), &Vec::new());
    let mut asked = Vec::new();
    loop {
        match req {
            ProbeRequest::CheckFile { ref path } => asked.push(path.clone()),
            ProbeRequest::Settled => break,
            ref other => panic!("unexpected request {:?}", other),
        }
        req = resolver.step(&ProbeEvent::CheckFile { is_file: false });
    }
    assert_eq!(
        asked,
        vec![
            "/opt/homebrew/bin/kiro-rs".to_string(),
            "/usr/local/bin/kiro-rs".to_string(),
            "/usr/bin/kiro-rs".to_string(),
        ]
    );
    match resolver.outcome {
        Some(Err(SidecarError::RuntimeNotFound { custom_error, checked })) => {
            assert_eq!(custom_error, None);
            assert_eq!(checked, asked);
        }
        other => panic!("expected RuntimeNotFound, got {:?}", other),
    }
}

#[test]
fn bundled_hit_stops_before_the_system_candidates() {
    let (mut resolver, mut req) = resolve_runtime_binary(
        &None,
        &vec!["/res".to_string()],
        &vec!["/usr/bin".to_string()],
    );
    let mut asked = Vec::new();
    for _ in 0..2 {
        match req {
            ProbeRequest::CheckFile { ref path } => asked.push(path.clone()),
            ref other => panic!("unexpected request {:?}", other),
        }
        req = resolver.step(&ProbeEvent::CheckFile { is_file: asked.len() == 2 });
    }
    assert!(matches!(req, ProbeRequest::Settled));
    assert_eq!(
        asked,
        vec![
            "/res/offline/kiro-rs/darwin-aarch64/kiro-rs".to_string(),
            "/res/offline/kiro-rs/kiro-rs".to_string(),
        ]
    );
    match resolver.outcome {
        Some(Ok(p)) => assert_eq!(p, "/res/offline/kiro-rs/kiro-rs"),
        other => panic!("expected the second bundled candidate, got {:?}", other),
    }
    assert_eq!(resolver.checked, asked);
}

#[test]
fn empty_override_is_ignored() {
    let (resolver, req) = resolve_runtime_binary(
        &Some("   ".to_string()),
        &vec!["/base".to_string()],
        &Vec::new(),
    );
    assert!(resolver.custom.is_none());
    match req {
        ProbeRequest::CheckFile { path } => {
            assert_eq!(path, "/base/offline/kiro-rs/darwin-aarch64/kiro-rs");
        }
        other => panic!("expected the first bundled candidate, got {:?}", other),
    }
}

#[test]
fn resolve_custom_runtime_path_cases() {
    let no_flags = vec![false, false, false, false];
    assert_eq!(
        resolve_custom_runtime_path("/p", PathKind::File, &no_flags).as_deref(),
        Some("/p")
    );
    assert_eq!(resolve_custom_runtime_path("/p", PathKind::Missing, &no_flags), None);
    assert_eq!(resolve_custom_runtime_path("/p", PathKind::Dir, &no_flags), None);
    assert_eq!(
        resolve_custom_runtime_path("/p", PathKind::Dir, &vec![false, false, false, true])
            .as_deref(),
        Some("/p/bin/kiro-rs")
    );
}

#[test]
fn legacy_marker_needs_both_files() {
    assert!(looks_like_legacy_node_project(true, true));
    assert!(!looks_like_legacy_node_project(true, false));
    assert!(!looks_like_legacy_node_project(false, true));
    assert!(!looks_like_legacy_node_project(false, false));
}

#[test]
fn ensure_executable_repairs_only_modes_without_execute_bits() {
    assert_eq!(ensure_executable(0o644), Some(0o755));
    assert_eq!(ensure_executable(0o600), Some(0o755));
    assert_eq!(ensure_executable(0), Some(0o755));
    assert_eq!(ensure_executable(0o755), None);
    assert_eq!(ensure_executable(0o100), None);
}
