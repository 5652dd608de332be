use tessera_model_gate::auth::{bearer, required_role, AccessControl, AccessError, AuthDecision, Role, TokenEntry};

fn entry(token: &str, name: &str, role: Role) -> TokenEntry {
    TokenEntry { token: token.into(), display_name: name.into(), role }
}

fn control() -> AccessControl {
    AccessControl::from_entries(vec![
        entry("operator-token-abcdef", "Op", Role::Operator),
        entry("viewer-token-abcdef123", "View", Role::Viewer),
    ])
    .unwrap()
}

#[test]
fn open_mode_allows_everything() {
    let control = AccessControl::from_entries(vec![]).unwrap();
    assert!(matches!(control.decide(None, Role::Operator), AuthDecision::Allow(None)));
}

#[test]
fn missing_token_is_unauthenticated() {
    assert!(matches!(control().decide(None, Role::Viewer), AuthDecision::Unauthenticated));
}

#[test]
fn viewer_cannot_operate() {
    assert!(matches!(control().decide(Some("viewer-token-abcdef123"), Role::Operator), AuthDecision::Forbidden));
}

#[test]
fn operator_can_review_and_read() {
    assert!(matches!(control().decide(Some("operator-token-abcdef"), Role::Reviewer), AuthDecision::Allow(Some(_))));
    assert!(matches!(control().decide(Some("operator-token-abcdef"), Role::Viewer), AuthDecision::Allow(Some(_))));
}

#[test]
fn role_hierarchy_is_ordered() {
    assert!(Role::Operator.allows(Role::Viewer));
    assert!(!Role::Viewer.allows(Role::Reviewer));
}

#[test]
fn required_role_maps_routes() {
    assert_eq!(required_role("GET", "/api/runs"), Some(Role::Viewer));
    assert_eq!(required_role("POST", "/api/runs"), Some(Role::Operator));
    assert_eq!(required_role("POST", "/api/runs/abc/review"), Some(Role::Reviewer));
    assert_eq!(required_role("GET", "/api/health"), None);
    assert_eq!(required_role("GET", "/index.html"), None);
}

#[test]
fn bearer_parsing() {
    assert_eq!(bearer(Some("Bearer abc")), Some("abc"));
    assert_eq!(bearer(Some("nonsense")), None);
    assert_eq!(bearer(None), None);
}

#[test]
fn bearer_accepts_lowercase_scheme_and_trims() {
    assert_eq!(bearer(Some("bearer   tok-1  ")), Some("tok-1"));
    assert_eq!(bearer(Some("Bearer    ")), None);
    assert_eq!(bearer(Some("BEARER abc")), None);
}

#[test]
fn head_requests_need_only_a_viewer() {
    assert_eq!(required_role("HEAD", "/api/runs"), Some(Role::Viewer));
    assert_eq!(required_role("DELETE", "/api/models"), Some(Role::Operator));
    assert_eq!(required_role("POST", "/api"), None);
}

#[test]
fn unknown_token_is_unauthenticated() {
    assert!(matches!(control().decide(Some("not-a-configured-token"), Role::Viewer), AuthDecision::Unauthenticated));
}

#[test]
fn allowed_principal_is_the_configured_one() {
    match control().decide(Some("viewer-token-abcdef123"), Role::Viewer) {
        AuthDecision::Allow(Some(p)) => {
            assert_eq!(p.display_name, "View");
            assert_eq!(p.role, Role::Viewer);
        }
        _ => panic!("the viewer token must be allowed to read"),
    }
}

#[test]
fn short_token_is_refused() {
    let r = AccessControl::from_entries(vec![entry("   short-token   ", "Shorty", Role::Viewer)]);
    assert!(matches!(r, Err(AccessError::TokenTooShort(name)) if name == "Shorty"));
}

#[test]
fn duplicate_token_is_refused() {
    let r = AccessControl::from_entries(vec![
        entry("operator-token-abcdef", "First", Role::Operator),
        entry("operator-token-abcdef", "Second", Role::Viewer),
    ]);
    assert!(matches!(r, Err(AccessError::DuplicateToken(name)) if name == "Second"));
}

#[test]
fn enforced_and_count_follow_the_tokens() {
    let c = control();
    assert!(c.enforced());
    assert_eq!(c.principal_count(), 2);
    let open = AccessControl::from_entries(vec![]).unwrap();
    assert!(!open.enforced());
    assert_eq!(open.principal_count(), 0);
}

#[test]
fn permission_passes_down_the_hierarchy() {
    let c = control();
    for role in [Role::Operator, Role::Reviewer, Role::Viewer] {
        assert!(matches!(c.decide(Some("operator-token-abcdef"), role), AuthDecision::Allow(Some(_))));
    }
    assert!(matches!(c.decide(Some("viewer-token-abcdef123"), Role::Reviewer), AuthDecision::Forbidden));
}

#[test]
fn access_refusals_are_explained() {
    assert_eq!(
        AccessError::TokenTooShort("Ana".into()).message(),
        "Access token for Ana must be at least 16 characters"
    );
    assert_eq!(AccessError::DuplicateToken("Ana".into()).message(), "Duplicate access token for Ana");
}
