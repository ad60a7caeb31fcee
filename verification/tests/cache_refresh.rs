//! The identity cache and the refresh transitions: reads see whole
//! snapshots, a successful sync replaces values wholesale, and a failed
//! sync leaves everything as it was.

use liberation::auth::Access;
use liberation::auth::Keycloak;
use liberation::auth::KeycloakCache;
use liberation::auth::KeycloakMetaInfo;
use liberation::auth::KeycloakUser;
use liberation::auth::apply_key_sync;
use liberation::auth::apply_user_sync;
use liberation::error::AuthError;
use liberation::settings::KeycloakSettings;

fn user(id: &str, username: &str) -> KeycloakUser {
    KeycloakUser {
        id: String::from(id),
        created_timestamp: 1600000000,
        username: String::from(username),
        enabled: true,
        totp: false,
        email_verified: true,
        disableable_credential_types: vec![],
        required_actions: vec![],
        not_before: 0,
        access: Access {
            manage_group_membership: false,
            view: true,
            map_roles: false,
            impersonate: false,
            manage: false,
        },
    }
}

#[test]
fn fresh_cache_is_empty_and_keyless() {
    let cache = KeycloakCache::new();
    assert_eq!(cache.get_public_key(), String::new());
    assert_eq!(cache.get_user(&String::from("anyone")).unwrap(), None);
}

#[test]
fn inserted_user_is_found_by_external_id() {
    let mut cache = KeycloakCache::new();
    cache.insert_user(user("ext-1", "ann"));
    cache.insert_user(user("ext-2", "ben"));
    let found = cache.get_user(&String::from("ext-2")).unwrap().unwrap();
    assert_eq!(found.username, "ben");
    assert_eq!(cache.get_user(&String::from("ext-3")).unwrap(), None);
}

#[test]
fn inserting_a_known_id_replaces_the_record() {
    let mut cache = KeycloakCache::new();
    cache.insert_user(user("ext-1", "ann"));
    cache.insert_user(user("ext-1", "ann-renamed"));
    let found = cache.get_user(&String::from("ext-1")).unwrap().unwrap();
    assert_eq!(found.username, "ann-renamed");
}

#[test]
fn replace_users_swaps_the_whole_snapshot() {
    let mut cache = KeycloakCache::new();
    cache.insert_user(user("ext-1", "ann"));
    cache.insert_user(user("ext-2", "ben"));
    cache.replace_users(vec![user("ext-3", "cyn")]);
    assert_eq!(cache.get_user(&String::from("ext-1")).unwrap(), None);
    assert_eq!(cache.get_user(&String::from("ext-2")).unwrap(), None);
    let found = cache.get_user(&String::from("ext-3")).unwrap().unwrap();
    assert_eq!(found.username, "cyn");
}

#[test]
fn reset_users_keeps_the_key() {
    let mut cache = KeycloakCache::new();
    cache.insert_user(user("ext-1", "ann"));
    cache.set_public_key(String::from("KEYTEXT"));
    cache.reset_users();
    assert_eq!(cache.get_user(&String::from("ext-1")).unwrap(), None);
    assert_eq!(cache.get_public_key(), String::from("KEYTEXT"));
}

#[test]
fn successful_user_sync_replaces_users_only() {
    let mut cache = KeycloakCache::new();
    cache.set_public_key(String::from("KEYTEXT"));
    cache.insert_user(user("ext-1", "ann"));
    let outcome = apply_user_sync(&mut cache, Ok(vec![user("ext-9", "zoe")]));
    assert_eq!(outcome, Ok(()));
    assert_eq!(cache.get_user(&String::from("ext-1")).unwrap(), None);
    assert!(cache.get_user(&String::from("ext-9")).unwrap().is_some());
    assert_eq!(cache.get_public_key(), String::from("KEYTEXT"));
}

#[test]
fn failed_user_sync_leaves_the_cache_unchanged() {
    let mut cache = KeycloakCache::new();
    cache.set_public_key(String::from("KEYTEXT"));
    cache.insert_user(user("ext-1", "ann"));
    let outcome = apply_user_sync(&mut cache, Err(AuthError::UpstreamUnavailable));
    assert_eq!(outcome, Err(AuthError::UpstreamUnavailable));
    let found = cache.get_user(&String::from("ext-1")).unwrap().unwrap();
    assert_eq!(found.username, "ann");
    assert_eq!(cache.get_public_key(), String::from("KEYTEXT"));
}

#[test]
fn successful_key_sync_replaces_the_key_only() {
    let mut cache = KeycloakCache::new();
    cache.set_public_key(String::from("OLDKEY"));
    cache.insert_user(user("ext-1", "ann"));
    let meta = KeycloakMetaInfo {
        realm: String::from("liberation"),
        public_key: String::from("NEWKEY"),
        token_service: String::from("https://idp.example.org/ts"),
        account_service: String::from("https://idp.example.org/as"),
        tokens_not_before: 0,
    };
    let outcome = apply_key_sync(&mut cache, Ok(meta));
    assert_eq!(outcome, Ok(()));
    assert_eq!(cache.get_public_key(), String::from("NEWKEY"));
    assert!(cache.get_user(&String::from("ext-1")).unwrap().is_some());
}

#[test]
fn failed_key_sync_leaves_the_cache_unchanged() {
    let mut cache = KeycloakCache::new();
    cache.set_public_key(String::from("OLDKEY"));
    let outcome = apply_key_sync(&mut cache, Err(AuthError::MalformedUpstreamResponse));
    assert_eq!(outcome, Err(AuthError::MalformedUpstreamResponse));
    assert_eq!(cache.get_public_key(), String::from("OLDKEY"));
}

#[test]
fn endpoints_follow_the_configured_base() {
    let kc = Keycloak::new(
        String::from("https://idp.example.org"),
        String::from("liberation"),
        String::from("client"),
        String::from("SECRET-REDACTED"),
    );
    assert_eq!(
        kc.token_url(),
        "https://idp.example.org/realms/liberation/protocol/openid-connect/token"
    );
    assert_eq!(
        kc.auth_url(),
        "https://idp.example.org/realms/liberation/protocol/openid-connect/auth"
    );
    assert_eq!(kc.realm_url(), "https://idp.example.org/realms/liberation");
    assert_eq!(
        kc.users_url(),
        "https://idp.example.org/admin/realms/liberation/users"
    );
}

#[test]
fn endpoints_do_not_double_a_trailing_slash() {
    let kc = Keycloak::from_settings(&KeycloakSettings {
        url: String::from("https://idp.example.org/"),
        realm: String::from("liberation"),
        clientid: String::from("client"),
        clientsecret: String::from("SECRET-REDACTED"),
    });
    assert_eq!(kc.realm_url(), "https://idp.example.org/realms/liberation");
    let (client_id, client_secret) = kc.credentials();
    assert_eq!(client_id, "client");
    assert_eq!(client_secret, "SECRET-REDACTED");
}
