use tessera_model_gate::auth::{AccessControl, Role, TokenEntry};
use tessera_model_gate::service::{presented_token, session_info, RateState};

fn entry(token: &str, name: &str, role: Role) -> TokenEntry {
    TokenEntry { token: token.into(), display_name: name.into(), role }
}

#[test]
fn bearer_header_is_preferred_over_api_key() {
    assert_eq!(
        presented_token(Some("Bearer from-header"), Some("from-key")),
        Some("from-header".to_string())
    );
}

#[test]
fn api_key_is_used_without_a_bearer_header() {
    assert_eq!(presented_token(None, Some("  key-123  ")), Some("key-123".to_string()));
    assert_eq!(presented_token(Some("Basic abc"), Some("key-123")), Some("key-123".to_string()));
    assert_eq!(presented_token(None, Some("   ")), None);
    assert_eq!(presented_token(None, None), None);
    assert_eq!(presented_token(Some("nonsense"), None), None);
}

#[test]
fn rate_window_counts_requests_per_minute() {
    let mut rate = RateState { window_minute: 0, count: 0 };
    assert!(!rate.register(10, 2));
    assert!(!rate.register(10, 2));
    assert!(rate.register(10, 2));
    assert_eq!(rate.count, 3);
    assert!(!rate.register(11, 2));
    assert_eq!(rate.window_minute, 11);
    assert_eq!(rate.count, 1);
}

#[test]
fn zero_limit_refuses_every_request() {
    let mut rate = RateState { window_minute: 5, count: 0 };
    assert!(rate.register(5, 0));
}

#[test]
fn open_session_reports_no_principal() {
    let access = AccessControl::from_entries(vec![]).unwrap();
    let s = session_info(&access, Some("anything"));
    assert!(!s.auth_required);
    assert_eq!(s.role, None);
    assert_eq!(s.principal, None);
}

#[test]
fn session_reports_the_principal_of_a_known_token() {
    let access = AccessControl::from_entries(vec![
        entry("operator-token-abcdef", "Olga", Role::Operator),
        entry("viewer-token-abcdef123", "Vic", Role::Viewer),
    ])
    .unwrap();
    let s = session_info(&access, Some("operator-token-abcdef"));
    assert!(s.auth_required);
    assert_eq!(s.role, Some(Role::Operator));
    assert_eq!(s.principal.as_deref(), Some("Olga"));
    let s = session_info(&access, Some("unknown-token-abcdef"));
    assert!(s.auth_required);
    assert_eq!(s.role, None);
    assert_eq!(s.principal, None);
    let s = session_info(&access, None);
    assert_eq!(s.principal, None);
}
