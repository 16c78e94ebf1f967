use auth_gateway::gate::admin_gate;
use auth_gateway::gate::admit_user;
use auth_gateway::gate::authenticate;
use auth_gateway::gate::extract_token;
use auth_gateway::gate::GateDenial;
use auth_gateway::model::User;
use auth_gateway::token::issue;
use auth_gateway::token::verify;

const SECRET: &str = "test-signing-secret";

fn user_with_role(id: i64, role: &str) -> User {
    User {
        id,
        name: "Ada".to_string(),
        email: "ada@example.com".to_string(),
        password: String::new(),
        is_admin: role == "admin",
        customer_name: Some("acme".to_string()),
        role: role.to_string(),
        photo: String::new(),
        verified: true,
        created_at: Some(0),
        updated_at: Some(0),
    }
}

#[test]
fn issue_then_verify_recovers_subject_before_expiry() {
    let t: u64 = 1_700_000_000;
    let token = issue(SECRET, "7", t, 3600);
    let claims = verify(SECRET, &token, t + 3599).unwrap();
    assert_eq!(claims.sub, "7");
    assert_eq!(claims.iat, t);
    assert_eq!(claims.exp, t + 3600);
}

#[test]
fn verify_rejects_after_expiry() {
    let t: u64 = 1_700_000_000;
    let token = issue(SECRET, "7", t, 3600);
    assert!(verify(SECRET, &token, t + 3601).is_none());
    assert!(verify(SECRET, &token, t + 3600).is_none());
}

#[test]
fn verify_rejects_other_secret_and_garbage() {
    let t: u64 = 1_700_000_000;
    let token = issue(SECRET, "7", t, 3600);
    assert!(verify("another-secret", &token, t).is_none());
    assert!(verify(SECRET, "not.a.token", t).is_none());
    assert!(verify(SECRET, "", t).is_none());
}

#[test]
fn cookie_is_preferred_over_header() {
    let picked = extract_token(
        Some("from-cookie".to_string()),
        Some("Bearer from-header".to_string()),
    );
    assert_eq!(picked, Some("from-cookie".to_string()));
}

#[test]
fn bearer_header_is_the_fallback() {
    let picked = extract_token(None, Some("Bearer abc.def.ghi".to_string()));
    assert_eq!(picked, Some("abc.def.ghi".to_string()));
}

#[test]
fn non_bearer_header_yields_nothing() {
    assert_eq!(extract_token(None, Some("Basic abc".to_string())), None);
    assert_eq!(extract_token(None, Some("Bearer".to_string())), None);
    assert_eq!(extract_token(None, None), None);
}

#[test]
fn authenticate_accepts_a_fresh_token_from_the_cookie() {
    let t: u64 = 1_700_000_000;
    let token = issue(SECRET, "42", t, 3600);
    let id = authenticate(Some(token), None, SECRET, t + 10).unwrap();
    assert_eq!(id, 42);
}

#[test]
fn authenticate_accepts_a_fresh_token_from_the_header() {
    let t: u64 = 1_700_000_000;
    let token = issue(SECRET, "42", t, 3600);
    let id = authenticate(None, Some(format!("Bearer {token}")), SECRET, t + 10).unwrap();
    assert_eq!(id, 42);
}

#[test]
fn authenticate_denies_without_any_token() {
    let denial = authenticate(None, None, SECRET, 0).unwrap_err();
    assert!(matches!(denial, GateDenial::MissingToken));
}

#[test]
fn authenticate_denies_expired_and_forged_tokens() {
    let t: u64 = 1_700_000_000;
    let token = issue(SECRET, "42", t, 3600);
    let expired = authenticate(Some(token.clone()), None, SECRET, t + 3600).unwrap_err();
    assert!(matches!(expired, GateDenial::InvalidToken));
    let forged = issue("other-secret", "42", t, 3600);
    let denied = authenticate(Some(forged), None, SECRET, t + 10).unwrap_err();
    assert!(matches!(denied, GateDenial::InvalidToken));
}

#[test]
fn authenticate_denies_a_non_numeric_subject() {
    let t: u64 = 1_700_000_000;
    let token = issue(SECRET, "not-a-number", t, 3600);
    let denial = authenticate(Some(token), None, SECRET, t + 10).unwrap_err();
    assert!(matches!(denial, GateDenial::BadSubject));
}

#[test]
fn vanished_user_is_denied_like_any_other() {
    let denial = match admit_user(None) {
        Err(d) => d,
        Ok(_) => panic!("a missing record must be denied"),
    };
    assert!(matches!(denial, GateDenial::UnknownUser));
}

#[test]
fn role_gate_passes_admins_only() {
    let admin = admit_user(Some(user_with_role(1, "admin"))).unwrap();
    assert!(admin_gate(&admin));
    let plain = admit_user(Some(user_with_role(2, "user"))).unwrap();
    assert!(!admin_gate(&plain));
    let cased = admit_user(Some(user_with_role(3, "Admin"))).unwrap();
    assert!(!admin_gate(&cased));
}

#[test]
fn principal_carries_the_admitted_record() {
    let principal = admit_user(Some(user_with_role(9, "user"))).unwrap();
    assert_eq!(principal.user().id, 9);
    assert_eq!(principal.user().role, "user");
}
