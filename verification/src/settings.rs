//! Configuration values consumed by the core, as plain data; reading them
//! from files or the environment is the surrounding program's business.

use vstd::prelude::*;

verus! {

/// Connection settings for the identity provider.
#[derive(Debug, Clone, PartialEq, Eq)]
pub struct KeycloakSettings {
    pub url: String,
    pub realm: String,
    pub clientid: String,
    pub clientsecret: String,
}

/// Connection settings for the record store.
#[derive(Debug, Clone, PartialEq, Eq)]
pub struct DatabaseSettings {
    pub url: String,
}

/// Everything the program is configured with.
#[derive(Debug, Clone, PartialEq, Eq)]
pub struct Settings {
    pub database: DatabaseSettings,
    pub keycloak: KeycloakSettings,
    pub serve_static_files: bool,
}

} // verus!
