use missioncontrol::access::{bearer_token, check_account_deletion, check_role_change, pass_gates, require_admin, require_auth, Scope};
use missioncontrol::credential::{hash_password, verify_password};
use missioncontrol::error::{deleted_or_not_found, found_or_not_found, AppError};
use missioncontrol::model::User;
use missioncontrol::patch::RegisterRequest;
use missioncontrol::session::{check_login, check_login_at, new_account, session_at, session_for};
use missioncontrol::token::{mint_token, mint_token_at, validate_token, validate_token_at, Claims};

const SECRET: &str = "test-secret";
const NOW: i64 = 1_700_000_000;

fn account(role: &str) -> User {
    let mut u = User::new("a@x.com".to_string(), "a".to_string(), "unused".to_string());
    u.role = role.to_string();
    u
}

fn claims(sub: &str, role: &str) -> Claims {
    Claims { sub: sub.to_string(), email: "e@x.com".to_string(), role: role.to_string(), exp: 0 }
}

fn header_for(u: &User) -> String {
    format!("Bearer {}", mint_token_at(u, SECRET, NOW).unwrap())
}

#[test]
fn password_verifies_against_its_hash() {
    let h = hash_password("pw123456").unwrap();
    assert!(h.starts_with("$argon2"));
    assert!(verify_password("pw123456", &h));
}

#[test]
fn other_password_does_not_verify() {
    let h = hash_password("pw123456").unwrap();
    assert!(!verify_password("pw1234567", &h));
}

#[test]
fn hashes_are_salted() {
    let a = hash_password("same").unwrap();
    let b = hash_password("same").unwrap();
    assert_ne!(a, b);
}

#[test]
fn malformed_hash_verifies_nothing() {
    assert!(!verify_password("pw", "not a hash"));
    assert!(!verify_password("", ""));
}

#[test]
fn minted_token_carries_the_account() {
    let u = account("admin");
    let t = mint_token_at(&u, SECRET, NOW).unwrap();
    let c = validate_token_at(&t, SECRET, NOW).unwrap();
    assert_eq!(c.sub, u.id);
    assert_eq!(c.email, "a@x.com");
    assert_eq!(c.role, "admin");
    assert_eq!(c.exp as i64, NOW + 86400);
}

#[test]
fn token_expires_strictly() {
    let u = account("user");
    let t = mint_token_at(&u, SECRET, NOW).unwrap();
    let exp = NOW + 86400;
    assert!(validate_token_at(&t, SECRET, exp - 1).is_ok());
    assert!(matches!(validate_token_at(&t, SECRET, exp), Err(AppError::Unauthorized)));
    assert!(matches!(validate_token_at(&t, SECRET, exp + 1), Err(AppError::Unauthorized)));
}

#[test]
fn token_under_other_secret_is_refused() {
    let t = mint_token_at(&account("user"), SECRET, NOW).unwrap();
    assert!(matches!(validate_token_at(&t, "other", NOW), Err(AppError::Unauthorized)));
}

#[test]
fn malformed_token_is_refused() {
    assert!(matches!(validate_token_at("a.b.c", SECRET, NOW), Err(AppError::Unauthorized)));
    assert!(matches!(validate_token_at("", SECRET, NOW), Err(AppError::Unauthorized)));
}

#[test]
fn tampered_token_is_refused() {
    let mut t = mint_token_at(&account("user"), SECRET, NOW).unwrap();
    let last = t.pop().unwrap();
    t.push(if last == 'A' { 'B' } else { 'A' });
    assert!(matches!(validate_token_at(&t, SECRET, NOW), Err(AppError::Unauthorized)));
}

#[test]
fn token_minted_now_validates_now() {
    let u = account("user");
    let t = mint_token(&u, SECRET).unwrap();
    assert_eq!(validate_token(&t, SECRET).unwrap().sub, u.id);
}

#[test]
fn mint_before_epoch_is_internal_error() {
    assert!(matches!(mint_token_at(&account("user"), SECRET, -1), Err(AppError::Internal(_))));
}

#[test]
fn bearer_prefix_is_required() {
    assert_eq!(bearer_token("Bearer abc"), Some("abc"));
    assert_eq!(bearer_token("Bearer "), Some(""));
    assert_eq!(bearer_token("bearer abc"), None);
    assert_eq!(bearer_token("Basic abc"), None);
    assert_eq!(bearer_token("Bearer"), None);
}

#[test]
fn missing_or_malformed_header_is_unauthorized() {
    assert!(matches!(require_auth(None, SECRET, NOW), Err(AppError::Unauthorized)));
    assert!(matches!(require_auth(Some("Token x"), SECRET, NOW), Err(AppError::Unauthorized)));
    assert!(matches!(require_auth(Some("Bearer x.y.z"), SECRET, NOW), Err(AppError::Unauthorized)));
}

#[test]
fn valid_header_authenticates() {
    let u = account("user");
    let c = require_auth(Some(&header_for(&u)), SECRET, NOW).unwrap();
    assert_eq!(c.sub, u.id);
}

#[test]
fn role_gate() {
    assert!(matches!(require_admin(None), Err(AppError::Unauthorized)));
    assert!(matches!(require_admin(Some(&claims("u", "user"))), Err(AppError::Forbidden)));
    assert!(require_admin(Some(&claims("u", "admin"))).is_ok());
}

#[test]
fn non_admin_on_admin_route_is_forbidden() {
    let h = header_for(&account("user"));
    assert!(matches!(pass_gates(Scope::Admin, Some(&h), SECRET, NOW), Err(AppError::Forbidden)));
    assert!(pass_gates(Scope::Member, Some(&h), SECRET, NOW).unwrap().is_some());
}

#[test]
fn unauthenticated_on_admin_route_is_unauthorized() {
    assert!(matches!(pass_gates(Scope::Admin, None, SECRET, NOW), Err(AppError::Unauthorized)));
    let h = header_for(&account("admin"));
    let late = NOW + 86400 + 1;
    assert!(matches!(pass_gates(Scope::Admin, Some(&h), SECRET, late), Err(AppError::Unauthorized)));
}

#[test]
fn admin_passes_admin_route() {
    let u = account("admin");
    let c = pass_gates(Scope::Admin, Some(&header_for(&u)), SECRET, NOW).unwrap().unwrap();
    assert_eq!(c.sub, u.id);
}

#[test]
fn public_routes_skip_the_gates() {
    assert!(pass_gates(Scope::Public, None, SECRET, NOW).unwrap().is_none());
}

#[test]
fn admin_cannot_change_own_role() {
    let me = claims("abc-1", "admin");
    match check_role_change(&me, "abc-1", "user") {
        Err(AppError::BadRequest(m)) => assert_eq!(m, "Cannot change your own role"),
        other => panic!("unexpected {:?}", other),
    }
    assert!(matches!(check_role_change(&me, "ABC-1", "user"), Err(AppError::BadRequest(_))));
}

#[test]
fn admin_can_change_other_admins_role() {
    let me = claims("abc-1", "admin");
    assert!(check_role_change(&me, "abc-2", "user").is_ok());
    assert!(check_role_change(&me, "abc-2", "admin").is_ok());
}

#[test]
fn unknown_role_is_rejected() {
    let me = claims("abc-1", "admin");
    match check_role_change(&me, "abc-2", "root") {
        Err(AppError::BadRequest(m)) => assert_eq!(m, "Role must be 'user' or 'admin'"),
        other => panic!("unexpected {:?}", other),
    }
}

#[test]
fn admin_cannot_delete_own_account() {
    let me = claims("abc-1", "admin");
    match check_account_deletion(&me, "abc-1") {
        Err(AppError::BadRequest(m)) => assert_eq!(m, "Cannot delete your own account"),
        other => panic!("unexpected {:?}", other),
    }
    assert!(check_account_deletion(&me, "abc-2").is_ok());
}

#[test]
fn registration_creates_ordinary_account_and_session() {
    let req = RegisterRequest { email: "a@x.com".to_string(), username: "a".to_string(), password: "pw123456".to_string() };
    let u = new_account(req).unwrap();
    assert_eq!(u.role, "user");
    assert!(u.password_hash.starts_with("$argon2"));
    let s = session_for(u.clone(), SECRET).unwrap();
    assert!(!s.token.is_empty());
    assert_eq!(s.user.id, u.id);
    assert_eq!(validate_token(&s.token, SECRET).unwrap().sub, u.id);
}

#[test]
fn login_with_wrong_password_is_unauthorized() {
    let mut u = account("user");
    u.password_hash = hash_password("pw123456").unwrap();
    assert!(matches!(check_login(Some(u), "wrong", SECRET), Err(AppError::Unauthorized)));
}

#[test]
fn login_with_right_password_opens_session() {
    let mut u = account("user");
    u.password_hash = hash_password("pw123456").unwrap();
    let id = u.id.clone();
    let s = check_login(Some(u), "pw123456", SECRET).unwrap();
    assert_eq!(s.user.id, id);
}

#[test]
fn login_for_unknown_account_is_unauthorized() {
    assert!(matches!(check_login(None, "pw", SECRET), Err(AppError::Unauthorized)));
}

#[test]
fn duplicate_registration_is_conflict() {
    let e = AppError::from_store_failure(Some(11000), "E11000 duplicate key".to_string());
    assert_eq!(e.status_code(), 409);
    assert_eq!(e.public_message(), "Email or username already taken");
    let other = AppError::from_store_failure(Some(2), "bad".to_string());
    assert!(matches!(other, AppError::Database(ref d) if d == "bad"));
    assert!(matches!(AppError::from_store_failure(None, "x".to_string()), AppError::Database(_)));
}

#[test]
fn errors_map_to_statuses_and_hide_details() {
    assert_eq!(AppError::NotFound.status_code(), 404);
    assert_eq!(AppError::Unauthorized.status_code(), 401);
    assert_eq!(AppError::Forbidden.status_code(), 403);
    assert_eq!(AppError::BadRequest("m".to_string()).status_code(), 400);
    assert_eq!(AppError::BadRequest("m".to_string()).public_message(), "m");
    assert_eq!(AppError::Internal("secret detail".to_string()).status_code(), 500);
    assert_eq!(AppError::Internal("secret detail".to_string()).public_message(), "Internal server error");
    assert_eq!(AppError::Database("query text".to_string()).public_message(), "Database error");
    assert_eq!(AppError::Unauthorized.public_message(), "Unauthorized");
}

#[test]
fn lookups_and_deletes_report_not_found() {
    assert!(matches!(found_or_not_found::<u8>(None), Err(AppError::NotFound)));
    assert_eq!(found_or_not_found(Some(3u8)).unwrap(), 3);
    assert!(matches!(deleted_or_not_found(0), Err(AppError::NotFound)));
    assert!(deleted_or_not_found(1).is_ok());
}

#[test]
fn login_at_time_opens_session_that_validates() {
    let mut u = account("user");
    u.password_hash = hash_password("pw123456").unwrap();
    let id = u.id.clone();
    let s = check_login_at(Some(u), "pw123456", SECRET, NOW).unwrap();
    assert_eq!(s.user.id, id);
    assert_eq!(validate_token_at(&s.token, SECRET, NOW).unwrap().sub, id);
}

#[test]
fn session_at_out_of_range_time_is_internal() {
    assert!(matches!(session_at(account("user"), SECRET, -5), Err(AppError::Internal(_))));
    let s = session_at(account("user"), SECRET, NOW).unwrap();
    assert!(!s.token.is_empty());
}

#[test]
fn wrong_key_token_is_refused_by_gate() {
    let t = mint_token_at(&account("admin"), "another-key", NOW).unwrap();
    let h = format!("Bearer {}", t);
    assert!(matches!(require_auth(Some(&h), SECRET, NOW), Err(AppError::Unauthorized)));
}
