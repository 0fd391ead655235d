use kiro2api_core::credentials::Account;
use kiro2api_core::credentials::account_to_credential;
use kiro2api_core::timefmt::{normalize_expires_at, timestamp_parses_rfc3339};

#[test]
fn local_pattern_becomes_fixed_offset_rfc3339() {
    let out = normalize_expires_at(Some("2024/01/15 10:30:00")).expect("local pattern accepted");
    assert!(timestamp_parses_rfc3339(&out));
    assert!(out.starts_with("2024-01-15T10:30:00"));
}

#[test]
fn rfc3339_input_is_rendered_canonically() {
    assert_eq!(
        normalize_expires_at(Some("2024-01-15T10:30:00.000Z")).as_deref(),
        Some("2024-01-15T10:30:00+00:00")
    );
    assert_eq!(
        normalize_expires_at(Some(" 2024-01-15T10:30:00+02:00 ")).as_deref(),
        Some("2024-01-15T10:30:00+02:00")
    );
}

#[test]
fn normalization_is_idempotent_on_its_own_output() {
    let canonical = normalize_expires_at(Some("2024-01-15T10:30:00.000Z")).unwrap();
    assert_eq!(normalize_expires_at(Some(&canonical)).as_deref(), Some(canonical.as_str()));
    let local = normalize_expires_at(Some("2024/01/15 10:30:00")).unwrap();
    assert_eq!(normalize_expires_at(Some(&local)).as_deref(), Some(local.as_str()));
}

#[test]
fn unparseable_and_absent_values_become_absent() {
    assert_eq!(normalize_expires_at(None), None);
    assert_eq!(normalize_expires_at(Some("")), None);
    assert_eq!(normalize_expires_at(Some("   ")), None);
    assert_eq!(normalize_expires_at(Some("not a date")), None);
    assert_eq!(normalize_expires_at(Some("2024-13-45")), None);
}

#[test]
fn unparseable_expiry_does_not_fail_the_record() {
    let account = Account {
        email: "a@example.com".to_string(),
        status: "ok".to_string(),
        provider: None,
        refresh_token: Some("tok".to_string()),
        access_token: None,
        profile_arn: None,
        expires_at: Some("someday".to_string()),
        client_id: None,
        client_secret: None,
        region: None,
        subscription_title: None,
        subscription_name: None,
        subscription_type: None,
    };
    let cred = account_to_credential(&account, 0, "us-east-1").expect("record survives");
    assert_eq!(cred.expires_at, None);
}
