//! The role policy on its own, and composed with validation.

use liberation::auth::AccessDecision;
use liberation::auth::Claims;
use liberation::auth::KeycloakCache;
use liberation::auth::ROLE_ADMIN;
use liberation::auth::assert_roles;
use liberation::auth::authorize;
use liberation::error::AuthError;

fn claims_with_roles(roles: Vec<&str>) -> Claims {
    Claims {
        uid: String::from("user-1"),
        roles: roles.into_iter().map(String::from).collect(),
        name: String::from("Ann Example"),
        email: String::from("ann@example.org"),
        exp: 4102444800,
    }
}

#[test]
fn anonymous_with_no_required_roles_is_granted() {
    match authorize(None, &vec![]) {
        AccessDecision::Granted(None) => (),
        _ => panic!("expected entry without claims"),
    }
}

#[test]
fn anonymous_with_required_roles_is_unauthenticated() {
    match authorize(None, &vec![String::from(ROLE_ADMIN)]) {
        AccessDecision::Denied(AuthError::Unauthenticated) => (),
        _ => panic!("expected Unauthenticated"),
    }
}

#[test]
fn wrong_role_is_forbidden() {
    let claims = claims_with_roles(vec!["member"]);
    match authorize(Some(claims), &vec![String::from("admin")]) {
        AccessDecision::Denied(AuthError::Forbidden) => (),
        _ => panic!("expected Forbidden"),
    }
}

#[test]
fn one_matching_role_suffices() {
    let claims = claims_with_roles(vec!["admin", "member"]);
    match authorize(Some(claims), &vec![String::from("admin")]) {
        AccessDecision::Granted(Some(cl)) => {
            assert_eq!(cl.uid, "user-1");
        },
        _ => panic!("expected entry with the claims"),
    }
}

#[test]
fn match_is_any_of_not_all_of() {
    let claims = claims_with_roles(vec!["librarian"]);
    match authorize(
        Some(claims),
        &vec![String::from("admin"), String::from("librarian")],
    ) {
        AccessDecision::Granted(Some(_)) => (),
        _ => panic!("expected entry: one of the required roles is held"),
    }
}

#[test]
fn assert_roles_passes_anonymous_when_nothing_is_required() {
    let cache = KeycloakCache::new();
    let result = assert_roles(&cache, None, vec![], 1700000000);
    assert_eq!(result, Ok(None));
}

#[test]
fn assert_roles_refuses_anonymous_when_roles_are_required() {
    let cache = KeycloakCache::new();
    let result = assert_roles(&cache, None, vec![String::from(ROLE_ADMIN)], 1700000000);
    assert_eq!(result, Err(AuthError::Unauthenticated));
}

#[test]
fn assert_roles_propagates_validation_failures() {
    let cache = KeycloakCache::new();
    let header = b"Token xyz".to_vec();
    let result = assert_roles(&cache, Some(&header), vec![], 1700000000);
    assert_eq!(result, Err(AuthError::MalformedHeader));
}
