//! Identity subsystem: the cache of provider-issued user records and the
//! current signing key, the bearer-token validator, and the role policy.
//!
//! The cache is a plain value with `&mut` writers; the surrounding program
//! decides how to share it (one writer, many readers). Every write replaces a
//! whole value at once, so a reader holding a snapshot never sees a record
//! that is half old and half new.

pub mod crypto;

use vstd::prelude::*;

use crate::database::ExternalId;
use crate::error::AuthError;
use crate::error::Error;
use crypto::b64_decode;
use crypto::b64_decode_of;
use crypto::b64url_decode;
use crypto::b64url_decode_of;
use crypto::claims_from_json;
use crypto::claims_of;
use crypto::rs256_valid;
use crypto::rs256_verify;
use crypto::rsa_pkcs1_of;
use crypto::rsa_spki_to_pkcs1;

verus! {

pub const ROLE_ADMIN: &'static str = "admin";

pub const ROLE_LIBRARIAN: &'static str = "librarian";

pub const ROLE_MEMBER: &'static str = "member";

pub const ROLE_ARISTOCRAT: &'static str = "aristocrat";

/// Per-user administrative permissions as the identity provider reports them.
#[derive(Debug, Clone, Copy, PartialEq, Eq, Structural)]
pub struct Access {
    pub manage_group_membership: bool,
    pub view: bool,
    pub map_roles: bool,
    pub impersonate: bool,
    pub manage: bool,
}

/// One user record as the identity provider's user listing reports it.
#[derive(Debug, Clone, PartialEq, Eq)]
pub struct KeycloakUser {
    pub id: String,
    pub created_timestamp: u64,
    pub username: String,
    pub enabled: bool,
    pub totp: bool,
    pub email_verified: bool,
    pub disableable_credential_types: Vec<String>,
    pub required_actions: Vec<String>,
    pub not_before: u64,
    pub access: Access,
}

/// Mathematical model of a [`KeycloakUser`].
#[verifier::ext_equal]
pub ghost struct KeycloakUserV {
    pub id: Seq<char>,
    pub created_timestamp: u64,
    pub username: Seq<char>,
    pub enabled: bool,
    pub totp: bool,
    pub email_verified: bool,
    pub disableable_credential_types: Seq<Seq<char>>,
    pub required_actions: Seq<Seq<char>>,
    pub not_before: u64,
    pub access: Access,
}

impl View for KeycloakUser {
    type V = KeycloakUserV;

    open spec fn view(&self) -> KeycloakUserV {
        KeycloakUserV {
            id: self.id@,
            created_timestamp: self.created_timestamp,
            username: self.username@,
            enabled: self.enabled,
            totp: self.totp,
            email_verified: self.email_verified,
            disableable_credential_types: self.disableable_credential_types.deep_view(),
            required_actions: self.required_actions.deep_view(),
            not_before: self.not_before,
            access: self.access,
        }
    }
}

impl DeepView for KeycloakUser {
    type V = KeycloakUserV;

    open spec fn deep_view(&self) -> KeycloakUserV {
        self.view()
    }
}

/// Copies a vector of strings, with the copy's model equal to the original's.
fn clone_strings(v: &Vec<String>) -> (r: Vec<String>)
    ensures
        r.deep_view() == v.deep_view(),
{
    let mut r: Vec<String> = Vec::new();
    let mut i: usize = 0;
    while i < v.len()
        invariant
            i <= v.len(),
            r@.len() == i,
            forall|j: int| 0 <= j < i ==> r@[j]@ == v@[j]@,
        decreases v.len() - i,
    {
        r.push(v[i].clone());
        i = i + 1;
    }
    proof {
        assert forall|j: int| 0 <= j < v@.len() implies r.deep_view()[j] == v.deep_view()[j] by {
            assert(r@[j]@ == v@[j]@);
        }
        assert(r.deep_view() =~= v.deep_view());
    }
    r
}

impl KeycloakUser {
    /// An explicit copy whose contract says the copy models the original
    /// exactly.
    pub fn duplicate(&self) -> (r: Self)
        ensures
            r@ == self@,
    {
        let r = KeycloakUser {
            id: self.id.clone(),
            created_timestamp: self.created_timestamp,
            username: self.username.clone(),
            enabled: self.enabled,
            totp: self.totp,
            email_verified: self.email_verified,
            disableable_credential_types: clone_strings(&self.disableable_credential_types),
            required_actions: clone_strings(&self.required_actions),
            not_before: self.not_before,
            access: self.access,
        };
        proof {
            assert(r@ =~= self@);
        }
        r
    }
}

/// Realm metadata as the identity provider's metadata endpoint reports it;
/// `public_key` is the realm's current signing key, base64-encoded DER.
#[derive(Debug, Clone, PartialEq, Eq)]
pub struct KeycloakMetaInfo {
    pub realm: String,
    pub public_key: String,
    pub token_service: String,
    pub account_service: String,
    pub tokens_not_before: u32,
}

/// In-memory store of provider-issued user records and the current signing
/// public key. Reads copy values out; writes replace values wholesale.
#[derive(Debug)]
pub struct KeycloakCache {
    users: Vec<KeycloakUser>,
    pk: String,
}

/// Mathematical model of a [`KeycloakCache`]: the sequence of cached user
/// records and the cached base64 text of the public key.
#[verifier::ext_equal]
pub ghost struct KeycloakCacheV {
    pub users: Seq<KeycloakUserV>,
    pub pk: Seq<char>,
}

impl View for KeycloakCache {
    type V = KeycloakCacheV;

    closed spec fn view(&self) -> KeycloakCacheV {
        KeycloakCacheV { users: self.users.deep_view(), pk: self.pk@ }
    }
}

/// Whether some cached record carries the given external id.
pub open spec fn has_user(users: Seq<KeycloakUserV>, id: Seq<char>) -> bool {
    exists|i: int| 0 <= i < users.len() && users[i].id == id
}

impl KeycloakCache {
    /// A cache holding no user records and the empty key text: before the
    /// first successful refresh, validation fails closed.
    pub fn new() -> (r: KeycloakCache)
        ensures
            r@.users == Seq::<KeycloakUserV>::empty(),
            r@.pk == Seq::<char>::empty(),
    {
        let r = KeycloakCache { users: Vec::new(), pk: String::new() };
        proof {
            assert(r@.users =~= Seq::<KeycloakUserV>::empty());
        }
        r
    }

    /// Upserts one record: the first record with the same external id is
    /// replaced, and a new id is appended.
    pub fn insert_user(&mut self, user: KeycloakUser)
        ensures
            final(self)@.pk == old(self)@.pk,
            !has_user(old(self)@.users, user@.id) ==> final(self)@.users == old(
                self,
            )@.users.push(user@),
            has_user(old(self)@.users, user@.id) ==> exists|i: int|
                0 <= i < old(self)@.users.len() && old(self)@.users[i].id == user@.id && (forall|
                    j: int,
                |
                    0 <= j < i ==> old(self)@.users[j].id != user@.id) && final(self)@.users == old(
                    self,
                )@.users.update(i, user@),
    {
        let ghost users = self@.users;
        let mut i: usize = 0;
        while i < self.users.len()
            invariant
                i <= self.users.len(),
                users == old(self)@.users,
                self@.users == users,
                self@.pk == old(self)@.pk,
                forall|j: int| 0 <= j < i ==> users[j].id != user@.id,
            decreases self.users.len() - i,
        {
            proof {
                assert(users[i as int] == self.users@[i as int]@);
            }
            if self.users[i].id == user.id {
                let ghost w = i as int;
                self.users.set(i, user);
                proof {
                    assert(old(self)@.users == users);
                    assert(users[w].id == user@.id);
                    assert(has_user(users, user@.id));
                    assert(self@.users =~= users.update(w, user@));
                    assert(exists|k: int|
                        0 <= k < old(self)@.users.len() && old(self)@.users[k].id == user@.id && (
                        forall|j: int| 0 <= j < k ==> old(self)@.users[j].id != user@.id)
                            && self@.users == old(self)@.users.update(k, user@));
                }
                return ;
            }
            i = i + 1;
        }
        self.users.push(user);
        proof {
            assert(!has_user(users, user@.id));
            assert(self@.users =~= users.push(user@));
        }
    }

    /// Looks up a record by external id; returns a copy of the first match.
    /// Absence is an answer, not an error: the result is always `Ok`.
    pub fn get_user(&self, user_id: &ExternalId) -> (r: Result<Option<KeycloakUser>, Error>)
        ensures
            ({
                let users = self@.users;
                match r {
                    Ok(Some(u)) => exists|i: int|
                        0 <= i < users.len() && users[i].id == user_id@ && u@ == users[i] && (
                        forall|j: int| 0 <= j < i ==> users[j].id != user_id@),
                    Ok(None) => !has_user(users, user_id@),
                    Err(_) => false,
                }
            }),
    {
        let mut i: usize = 0;
        while i < self.users.len()
            invariant
                i <= self.users.len(),
                forall|j: int| 0 <= j < i ==> self@.users[j].id != user_id@,
            decreases self.users.len() - i,
        {
            proof {
                assert(self@.users[i as int] == self.users@[i as int]@);
            }
            if self.users[i].id == *user_id {
                let u = self.users[i].duplicate();
                proof {
                    let ghost users = self@.users;
                    let ghost w = i as int;
                    assert(users[w].id == user_id@);
                    assert(exists|k: int|
                        0 <= k < users.len() && users[k].id == user_id@ && u@ == users[k] && (
                        forall|j: int| 0 <= j < k ==> users[j].id != user_id@));
                }
                return Ok(Some(u));
            }
            i = i + 1;
        }
        Ok(None)
    }

    /// Replaces the whole user set in one step: afterwards the cache models
    /// exactly the given list, and the key is untouched. No intermediate
    /// mixture of old and new records is ever a value of this cache.
    pub fn replace_users(&mut self, users: Vec<KeycloakUser>)
        ensures
            final(self)@.users == users.deep_view(),
            final(self)@.pk == old(self)@.pk,
    {
        self.users = users;
    }

    /// Drops every cached user record.
    pub fn reset_users(&mut self)
        ensures
            final(self)@.users == Seq::<KeycloakUserV>::empty(),
            final(self)@.pk == old(self)@.pk,
    {
        self.users = Vec::new();
        proof {
            assert(self@.users =~= Seq::<KeycloakUserV>::empty());
        }
    }

    /// Replaces the cached key text in one step; user records are untouched.
    pub fn set_public_key(&mut self, public_key: String)
        ensures
            final(self)@.pk == public_key@,
            final(self)@.users == old(self)@.users,
    {
        self.pk = public_key;
    }

    /// A copy of the cached key text.
    pub fn get_public_key(&self) -> (r: String)
        ensures
            r@ == self@.pk,
    {
        self.pk.clone()
    }
}

/// Mathematical model of a [`KeycloakMetaInfo`].
#[verifier::ext_equal]
pub ghost struct KeycloakMetaInfoV {
    pub realm: Seq<char>,
    pub public_key: Seq<char>,
    pub token_service: Seq<char>,
    pub account_service: Seq<char>,
    pub tokens_not_before: u32,
}

impl View for KeycloakMetaInfo {
    type V = KeycloakMetaInfoV;

    open spec fn view(&self) -> KeycloakMetaInfoV {
        KeycloakMetaInfoV {
            realm: self.realm@,
            public_key: self.public_key@,
            token_service: self.token_service@,
            account_service: self.account_service@,
            tokens_not_before: self.tokens_not_before,
        }
    }
}

/// The provider client's configuration: where the identity provider lives
/// and the service credentials presented to it. The network calls built on
/// these values suspend and fail in ways no contract here can bound, so they
/// stay with the surrounding program; this type owns the endpoint
/// arithmetic, which is exact.
#[derive(Debug, Clone, PartialEq, Eq)]
pub struct Keycloak {
    keycloak_url: String,
    realm: String,
    client_id: String,
    client_secret: String,
}

/// Mathematical model of a [`Keycloak`] client configuration.
#[verifier::ext_equal]
pub ghost struct KeycloakV {
    pub keycloak_url: Seq<char>,
    pub realm: Seq<char>,
    pub client_id: Seq<char>,
    pub client_secret: Seq<char>,
}

impl View for Keycloak {
    type V = KeycloakV;

    closed spec fn view(&self) -> KeycloakV {
        KeycloakV {
            keycloak_url: self.keycloak_url@,
            realm: self.realm@,
            client_id: self.client_id@,
            client_secret: self.client_secret@,
        }
    }
}

/// `base` with `path` appended behind exactly one separating slash.
pub open spec fn joined(base: Seq<char>, path: Seq<char>) -> Seq<char> {
    if base.len() > 0 && base[base.len() - 1] == '/' {
        base + path
    } else {
        base + seq!['/'] + path
    }
}

/// The realm's base endpoint, `{url}/realms/{realm}`: realm metadata (the
/// public key among it) is fetched from here.
pub open spec fn realm_url_spec(kc: KeycloakV) -> Seq<char> {
    joined(kc.keycloak_url, "realms/"@ + kc.realm)
}

/// The token endpoint, `{url}/realms/{realm}/protocol/openid-connect/token`:
/// service credentials are exchanged for an access token here.
pub open spec fn token_url_spec(kc: KeycloakV) -> Seq<char> {
    realm_url_spec(kc) + "/protocol/openid-connect/token"@
}

/// The authorization endpoint, `{url}/realms/{realm}/protocol/openid-connect/auth`.
pub open spec fn auth_url_spec(kc: KeycloakV) -> Seq<char> {
    realm_url_spec(kc) + "/protocol/openid-connect/auth"@
}

/// The administrative user-listing endpoint, `{url}/admin/realms/{realm}/users`.
pub open spec fn users_url_spec(kc: KeycloakV) -> Seq<char> {
    joined(kc.keycloak_url, "admin/realms/"@ + kc.realm) + "/users"@
}

/// `base` with `path` appended behind exactly one separating slash.
fn join_url(base: &String, path: &str) -> (r: String)
    ensures
        r@ == joined(base@, path@),
{
    let mut r = base.clone();
    let n = r.as_str().unicode_len();
    if n == 0 || r.as_str().get_char(n - 1) != '/' {
        r.append("/");
        proof {
            reveal_strlit("/");
            assert(r@ =~= base@ + seq!['/']);
        }
        r.append(path);
        proof {
            assert(r@ =~= joined(base@, path@));
        }
    } else {
        r.append(path);
        proof {
            assert(r@ =~= joined(base@, path@));
        }
    }
    r
}

impl Keycloak {
    /// A client configuration from its four constituents.
    pub fn new(
        keycloak_url: String,
        realm: String,
        client_id: String,
        client_secret: String,
    ) -> (r: Keycloak)
        ensures
            r@.keycloak_url == keycloak_url@,
            r@.realm == realm@,
            r@.client_id == client_id@,
            r@.client_secret == client_secret@,
    {
        Keycloak { keycloak_url, realm, client_id, client_secret }
    }

    /// A client configuration from the provider settings.
    pub fn from_settings(settings: &crate::settings::KeycloakSettings) -> (r: Keycloak)
        ensures
            r@.keycloak_url == settings.url@,
            r@.realm == settings.realm@,
            r@.client_id == settings.clientid@,
            r@.client_secret == settings.clientsecret@,
    {
        Keycloak::new(
            settings.url.clone(),
            settings.realm.clone(),
            settings.clientid.clone(),
            settings.clientsecret.clone(),
        )
    }

    /// The service credentials, for the program part that performs the
    /// credentials exchange.
    pub fn credentials(&self) -> (r: (String, String))
        ensures
            r.0@ == self@.client_id,
            r.1@ == self@.client_secret,
    {
        (self.client_id.clone(), self.client_secret.clone())
    }

    /// The token endpoint of this configuration.
    pub fn token_url(&self) -> (r: String)
        ensures
            r@ == token_url_spec(self@),
    {
        let base = join_url(&self.keycloak_url, "realms/");
        let with_realm = base.concat(self.realm.as_str());
        proof {
            assert(with_realm@ =~= joined(self@.keycloak_url, "realms/"@ + self@.realm));
        }
        let r = with_realm.concat("/protocol/openid-connect/token");
        r
    }

    /// The authorization endpoint of this configuration.
    pub fn auth_url(&self) -> (r: String)
        ensures
            r@ == auth_url_spec(self@),
    {
        let base = join_url(&self.keycloak_url, "realms/");
        let with_realm = base.concat(self.realm.as_str());
        proof {
            assert(with_realm@ =~= joined(self@.keycloak_url, "realms/"@ + self@.realm));
        }
        with_realm.concat("/protocol/openid-connect/auth")
    }

    /// The realm metadata endpoint of this configuration.
    pub fn realm_url(&self) -> (r: String)
        ensures
            r@ == realm_url_spec(self@),
    {
        let base = join_url(&self.keycloak_url, "realms/");
        let r = base.concat(self.realm.as_str());
        proof {
            assert(r@ =~= joined(self@.keycloak_url, "realms/"@ + self@.realm));
        }
        r
    }

    /// The administrative user-listing endpoint of this configuration.
    pub fn users_url(&self) -> (r: String)
        ensures
            r@ == users_url_spec(self@),
    {
        let base = join_url(&self.keycloak_url, "admin/realms/");
        let with_realm = base.concat(self.realm.as_str());
        proof {
            assert(with_realm@ =~= joined(self@.keycloak_url, "admin/realms/"@ + self@.realm));
        }
        with_realm.concat("/users")
    }
}

/// Lands the user-sync branch of one refresh tick: a successful fetch
/// replaces the cached user set wholesale, a failed one leaves the cache
/// exactly as it was. Either way the failure stops here: it is returned,
/// never raised, and the key is untouched.
pub fn apply_user_sync(
    cache: &mut KeycloakCache,
    fetched: Result<Vec<KeycloakUser>, AuthError>,
) -> (r: Result<(), AuthError>)
    ensures
        final(cache)@.pk == old(cache)@.pk,
        match fetched {
            Ok(users) => final(cache)@.users == users.deep_view() && r is Ok,
            Err(e) => final(cache)@ == old(cache)@ && (r matches Err(e1) && e1 == e),
        },
{
    match fetched {
        Ok(users) => {
            cache.replace_users(users);
            Ok(())
        },
        Err(e) => Err(e),
    }
}

/// Lands the key-sync branch of one refresh tick: a successful metadata
/// fetch replaces the cached key text wholesale, a failed one leaves the
/// cache exactly as it was; user records are untouched either way.
pub fn apply_key_sync(
    cache: &mut KeycloakCache,
    fetched: Result<KeycloakMetaInfo, AuthError>,
) -> (r: Result<(), AuthError>)
    ensures
        final(cache)@.users == old(cache)@.users,
        match fetched {
            Ok(meta) => final(cache)@.pk == meta@.public_key && r is Ok,
            Err(e) => final(cache)@ == old(cache)@ && (r matches Err(e1) && e1 == e),
        },
{
    match fetched {
        Ok(meta) => {
            cache.set_public_key(meta.public_key);
            Ok(())
        },
        Err(e) => Err(e),
    }
}

/// The verified payload of a bearer token: identity, role memberships,
/// display attributes and the expiry instant (seconds since the epoch).
#[derive(Debug, Clone, PartialEq, Eq)]
pub struct Claims {
    pub uid: String,
    pub roles: Vec<String>,
    pub name: String,
    pub email: String,
    pub exp: u64,
}

/// Mathematical model of [`Claims`].
#[verifier::ext_equal]
pub ghost struct ClaimsV {
    pub uid: Seq<char>,
    pub roles: Seq<Seq<char>>,
    pub name: Seq<char>,
    pub email: Seq<char>,
    pub exp: u64,
}

impl View for Claims {
    type V = ClaimsV;

    open spec fn view(&self) -> ClaimsV {
        ClaimsV {
            uid: self.uid@,
            roles: self.roles.deep_view(),
            name: self.name@,
            email: self.email@,
            exp: self.exp,
        }
    }
}

impl DeepView for Claims {
    type V = ClaimsV;

    open spec fn deep_view(&self) -> ClaimsV {
        self.view()
    }
}

/// The bytes `b"Bearer "`, the required prefix of an Authorization header.
pub open spec fn bearer_prefix() -> Seq<u8> {
    seq![
        'B' as u8,
        'e' as u8,
        'a' as u8,
        'r' as u8,
        'e' as u8,
        'r' as u8,
        ' ' as u8,
    ]
}

/// Whether a header value is readable as header text at all: every byte
/// visible ASCII, space or tab. A header carrying any other byte cannot be
/// converted to a string and is malformed before any token logic runs.
pub open spec fn header_text_ok(h: Seq<u8>) -> bool {
    forall|i: int| 0 <= i < h.len() ==> (32 <= h[i] <= 126 || h[i] == 9)
}

/// Whether a header value is of the `Bearer <token>` shape.
pub open spec fn bearer_shaped(h: Seq<u8>) -> bool {
    h.len() >= 7 && h.subrange(0, 7) == bearer_prefix()
}

/// The token part of a Bearer header: everything after the prefix.
pub open spec fn bearer_token(h: Seq<u8>) -> Seq<u8> {
    h.skip(7)
}

/// The position of the first `.` at or after `from`, or `-1` when none is
/// left.
pub open spec fn find_dot_from(t: Seq<u8>, from: int) -> int
    decreases t.len() - from when 0 <= from <= t.len()
{
    if from >= t.len() {
        -1
    } else if t[from] == '.' as u8 {
        from
    } else {
        find_dot_from(t, from + 1)
    }
}

proof fn lemma_find_dot_prefix(t: Seq<u8>, a: int, b: int)
    requires
        0 <= a <= b <= t.len(),
        forall|j: int| a <= j < b ==> t[j] != '.' as u8,
    ensures
        find_dot_from(t, a) == find_dot_from(t, b),
    decreases b - a,
{
    if a < b {
        lemma_find_dot_prefix(t, a + 1, b);
    }
}

/// The decision the token validator owes on the given cached key text,
/// header value and clock reading.
pub open spec fn validate_spec(pk: Seq<char>, header: Option<Seq<u8>>, now: u64) -> Result<
    Option<ClaimsV>,
    AuthError,
> {
    match header {
        None => Ok(None),
        Some(h) => {
            if !header_text_ok(h) {
                Err(AuthError::MalformedHeader)
            } else if !bearer_shaped(h) {
                Err(AuthError::MalformedHeader)
            } else if pk.len() == 0 {
                Err(AuthError::KeyUnavailable)
            } else {
                match b64_decode_of(pk) {
                    None => Err(AuthError::KeyUnavailable),
                    Some(der) => match rsa_pkcs1_of(der) {
                        None => Err(AuthError::KeyUnavailable),
                        Some(key) => validate_token_spec(bearer_token(h), key, now),
                    },
                }
            }
        },
    }
}

/// The decision owed on the bare token once the key is at hand: split at the
/// first and second dot, check the signature over everything before the
/// second dot, then parse the payload and check the expiry.
pub open spec fn validate_token_spec(t: Seq<u8>, key: Seq<u8>, now: u64) -> Result<
    Option<ClaimsV>,
    AuthError,
> {
    let d1 = find_dot_from(t, 0);
    let d2 = if d1 < 0 {
        -1
    } else {
        find_dot_from(t, d1 + 1)
    };
    if d1 < 0 || d2 < 0 {
        Err(AuthError::InvalidToken)
    } else if !rs256_valid(t.skip(d2 + 1), t.take(d2), key) {
        Err(AuthError::InvalidToken)
    } else {
        match b64url_decode_of(t.subrange(d1 + 1, d2)) {
            None => Err(AuthError::InvalidToken),
            Some(payload) => match claims_of(payload) {
                None => Err(AuthError::InvalidToken),
                Some(c) => if c.exp <= now {
                    Err(AuthError::InvalidToken)
                } else {
                    Ok(Some(c))
                },
            },
        }
    }
}

/// The claims a Bearer header carries under the given cached key text, when
/// the key decodes, the token is well-formed and its signature verifies;
/// `None` otherwise. The clock plays no part here.
pub open spec fn verified_claims(pk: Seq<char>, h: Seq<u8>) -> Option<ClaimsV> {
    if !header_text_ok(h) || !bearer_shaped(h) || pk.len() == 0 {
        None
    } else {
        match b64_decode_of(pk) {
            None => None,
            Some(der) => match rsa_pkcs1_of(der) {
                None => None,
                Some(key) => {
                    let t = bearer_token(h);
                    let d1 = find_dot_from(t, 0);
                    let d2 = if d1 < 0 {
                        -1
                    } else {
                        find_dot_from(t, d1 + 1)
                    };
                    if d1 < 0 || d2 < 0 || !rs256_valid(t.skip(d2 + 1), t.take(d2), key) {
                        None
                    } else {
                        match b64url_decode_of(t.subrange(d1 + 1, d2)) {
                            None => None,
                            Some(payload) => claims_of(payload),
                        }
                    }
                },
            },
        }
    }
}

/// Every signed, well-formed, non-expired token is accepted, with exactly
/// the claims its payload carries.
pub proof fn lemma_valid_token_accepted(pk: Seq<char>, h: Seq<u8>, now: u64, c: ClaimsV)
    requires
        verified_claims(pk, h) == Some(c),
        c.exp > now,
    ensures
        validate_spec(pk, Some(h), now) == Ok::<Option<ClaimsV>, AuthError>(Some(c)),
{
}

/// Every token whose signature does not verify under the cached key is
/// rejected as an invalid token, whatever else it carries.
pub proof fn lemma_bad_signature_rejected(pk: Seq<char>, h: Seq<u8>, now: u64, der: Seq<u8>, key: Seq<u8>)
    requires
        header_text_ok(h),
        bearer_shaped(h),
        pk.len() > 0,
        b64_decode_of(pk) == Some(der),
        rsa_pkcs1_of(der) == Some(key),
        ({
            let t = bearer_token(h);
            let d1 = find_dot_from(t, 0);
            let d2 = find_dot_from(t, d1 + 1);
            d1 >= 0 && d2 >= 0 && !rs256_valid(t.skip(d2 + 1), t.take(d2), key)
        }),
    ensures
        validate_spec(pk, Some(h), now) == Err::<Option<ClaimsV>, AuthError>(
            AuthError::InvalidToken,
        ),
{
}

/// Every token whose expiry lies in the past is rejected as an invalid
/// token, even when its signature verifies.
pub proof fn lemma_expired_token_rejected(pk: Seq<char>, h: Seq<u8>, now: u64, c: ClaimsV)
    requires
        verified_claims(pk, h) == Some(c),
        c.exp <= now,
    ensures
        validate_spec(pk, Some(h), now) == Err::<Option<ClaimsV>, AuthError>(
            AuthError::InvalidToken,
        ),
{
}

/// Before any key has been cached, validation of a Bearer header fails
/// closed: no token is accepted.
pub proof fn lemma_fails_closed_without_key(h: Seq<u8>, now: u64)
    requires
        header_text_ok(h),
        bearer_shaped(h),
    ensures
        validate_spec(Seq::<char>::empty(), Some(h), now) == Err::<Option<ClaimsV>, AuthError>(
            AuthError::KeyUnavailable,
        ),
{
}

/// A present header holding any byte that header text cannot carry is
/// refused as malformed, before the cached key or the token are looked at.
pub proof fn lemma_unreadable_header_malformed(pk: Seq<char>, h: Seq<u8>, now: u64)
    requires
        !header_text_ok(h),
    ensures
        validate_spec(pk, Some(h), now) == Err::<Option<ClaimsV>, AuthError>(
            AuthError::MalformedHeader,
        ),
{
}

/// Checks that every byte of the header is visible ASCII, space or tab.
fn check_header_text(h: &Vec<u8>) -> (r: bool)
    ensures
        r == header_text_ok(h@),
{
    let mut i: usize = 0;
    while i < h.len()
        invariant
            i <= h@.len(),
            forall|j: int| 0 <= j < i ==> (32 <= h@[j] <= 126 || h@[j] == 9),
        decreases h@.len() - i,
    {
        let b = h[i];
        if !(32 <= b && b <= 126 || b == 9) {
            return false;
        }
        i = i + 1;
    }
    true
}

/// Copies the byte range `[from, to)` out of a vector.
fn sub_bytes(v: &Vec<u8>, from: usize, to: usize) -> (r: Vec<u8>)
    requires
        from <= to <= v@.len(),
    ensures
        r@ == v@.subrange(from as int, to as int),
{
    let mut r: Vec<u8> = Vec::new();
    let mut i: usize = from;
    while i < to
        invariant
            from <= i <= to <= v@.len(),
            r@ =~= v@.subrange(from as int, i as int),
        decreases to - i,
    {
        r.push(v[i]);
        proof {
            assert(r@ =~= v@.subrange(from as int, i + 1 as int));
        }
        i = i + 1;
    }
    proof {
        assert(r@ =~= v@.subrange(from as int, to as int));
    }
    r
}

/// Finds the first `.` at or after `from`.
fn find_dot(t: &Vec<u8>, from: usize) -> (r: Option<usize>)
    requires
        from <= t@.len(),
    ensures
        match r {
            Some(i) => from <= i < t@.len() && find_dot_from(t@, from as int) == i,
            None => find_dot_from(t@, from as int) == -1,
        },
{
    let mut i: usize = from;
    while i < t.len()
        invariant
            from <= i <= t@.len(),
            forall|j: int| from <= j < i ==> t@[j] != '.' as u8,
        decreases t@.len() - i,
    {
        if t[i] == 46u8 {
            proof {
                lemma_find_dot_prefix(t@, from as int, i as int);
            }
            return Some(i);
        }
        i = i + 1;
    }
    proof {
        lemma_find_dot_prefix(t@, from as int, t@.len() as int);
    }
    None
}

/// Validates the Authorization header of a request against the cached
/// signing key, at the given clock reading (seconds since the epoch).
///
/// An absent header is not an error: anonymity is legal and the caller
/// decides whether it suffices. A present header must be readable header
/// text and Bearer-shaped, the cached key must decode, and the token's
/// signature and expiry must check out; the exact decision owed on every
/// input is [`validate_spec`].
pub fn get_claims_for_req(cache: &KeycloakCache, header: Option<&Vec<u8>>, now: u64) -> (r: Result<
    Option<Claims>,
    AuthError,
>)
    ensures
        ({
            let s = validate_spec(
                cache@.pk,
                match header {
                    Some(h) => Some(h@),
                    None => None,
                },
                now,
            );
            match (r, s) {
                (Ok(Some(c)), Ok(Some(cv))) => c@ == cv,
                (Ok(None), Ok(None)) => true,
                (Err(e1), Err(e2)) => e1 == e2,
                _ => false,
            }
        }),
{
    let h = match header {
        None => {
            return Ok(None);
        },
        Some(h) => h,
    };
    if !check_header_text(h) {
        return Err(AuthError::MalformedHeader);
    }
    if !(h.len() >= 7 && h[0] == 66u8 && h[1] == 101u8 && h[2] == 97u8 && h[3] == 114u8 && h[4]
        == 101u8 && h[5] == 114u8 && h[6] == 32u8) {
        proof {
            assert(bearer_shaped(h@) ==> h@.subrange(0, 7)[0] == 'B' as u8 && h@.subrange(0, 7)[1]
                == 'e' as u8 && h@.subrange(0, 7)[2] == 'a' as u8 && h@.subrange(0, 7)[3]
                == 'r' as u8 && h@.subrange(0, 7)[4] == 'e' as u8 && h@.subrange(0, 7)[5]
                == 'r' as u8 && h@.subrange(0, 7)[6] == ' ' as u8);
        }
        return Err(AuthError::MalformedHeader);
    }
    proof {
        assert(h@.subrange(0, 7) =~= bearer_prefix());
    }
    let tok = sub_bytes(h, 7, h.len());
    proof {
        assert(tok@ =~= bearer_token(h@));
    }
    let pk = cache.get_public_key();
    if pk.as_str().is_empty() {
        return Err(AuthError::KeyUnavailable);
    }
    let der = match b64_decode(pk.as_str()) {
        None => {
            return Err(AuthError::KeyUnavailable);
        },
        Some(d) => d,
    };
    let key = match rsa_spki_to_pkcs1(&der) {
        None => {
            return Err(AuthError::KeyUnavailable);
        },
        Some(k) => k,
    };
    let d1 = match find_dot(&tok, 0) {
        None => {
            return Err(AuthError::InvalidToken);
        },
        Some(i) => i,
    };
    let d2 = match find_dot(&tok, d1 + 1) {
        None => {
            return Err(AuthError::InvalidToken);
        },
        Some(i) => i,
    };
    let message = sub_bytes(&tok, 0, d2);
    let sig = sub_bytes(&tok, d2 + 1, tok.len());
    proof {
        assert(message@ =~= tok@.take(d2 as int));
        assert(sig@ =~= tok@.skip(d2 + 1));
    }
    if !rs256_verify(sig.as_slice(), message.as_slice(), &key) {
        return Err(AuthError::InvalidToken);
    }
    let payload_b64 = sub_bytes(&tok, d1 + 1, d2);
    let payload = match b64url_decode(payload_b64.as_slice()) {
        None => {
            return Err(AuthError::InvalidToken);
        },
        Some(p) => p,
    };
    let claims = match claims_from_json(&payload) {
        None => {
            return Err(AuthError::InvalidToken);
        },
        Some(c) => c,
    };
    if claims.exp <= now {
        return Err(AuthError::InvalidToken);
    }
    Ok(Some(claims))
}

/// Validates the request's header as [`get_claims_for_req`] does, then
/// enforces the role requirement as [`authorize`] does: an empty requirement
/// passes any validated request through, claims or not; a non-empty one
/// demands claims holding at least one required role.
pub fn assert_roles(
    cache: &KeycloakCache,
    header: Option<&Vec<u8>>,
    roles: Vec<String>,
    now: u64,
) -> (r: Result<Option<Claims>, AuthError>)
    ensures
        ({
            let s = validate_spec(
                cache@.pk,
                match header {
                    Some(h) => Some(h@),
                    None => None,
                },
                now,
            );
            let req = roles.deep_view();
            match s {
                Err(e) => r matches Err(e1) && e1 == e,
                Ok(cv) => match r {
                    Ok(c) => {
                        &&& c.deep_view() == cv
                        &&& req.len() == 0 || (cv matches Some(cvv) && role_match(cvv.roles, req))
                    },
                    Err(e1) => {
                        &&& req.len() > 0
                        &&& match cv {
                            None => e1 == AuthError::Unauthenticated,
                            Some(cvv) => e1 == AuthError::Forbidden && !role_match(cvv.roles, req),
                        }
                    },
                },
            }
        }),
{
    let claims = match get_claims_for_req(cache, header, now) {
        Err(e) => {
            return Err(e);
        },
        Ok(c) => c,
    };
    match authorize(claims, &roles) {
        AccessDecision::Granted(c) => Ok(c),
        AccessDecision::Denied(e) => Err(e),
    }
}

/// The outcome of an authorization check: entry with whatever claims were
/// presented (none for an anonymous caller where none are needed), or a
/// refusal with its reason.
#[derive(Debug)]
pub enum AccessDecision {
    Granted(Option<Claims>),
    Denied(AuthError),
}

/// Whether at least one held role is among the required ones.
pub open spec fn role_match(held: Seq<Seq<char>>, required: Seq<Seq<char>>) -> bool {
    exists|i: int, j: int|
        0 <= i < held.len() && 0 <= j < required.len() && held[i] == required[j]
}

/// Whether the vector of roles contains the given role, by text.
fn contains_role(roles: &Vec<String>, role: &String) -> (r: bool)
    ensures
        r == exists|i: int| 0 <= i < roles.deep_view().len() && roles.deep_view()[i] == role@,
{
    let mut i: usize = 0;
    while i < roles.len()
        invariant
            i <= roles.len(),
            forall|j: int| 0 <= j < i ==> roles.deep_view()[j] != role@,
        decreases roles.len() - i,
    {
        proof {
            assert(roles.deep_view()[i as int] == roles@[i as int]@);
        }
        if roles[i] == *role {
            return true;
        }
        i = i + 1;
    }
    false
}

/// Role-based access policy: an empty requirement admits anyone, claims or
/// not; a non-empty requirement demands claims holding at least one of the
/// required roles ("at least one of", not "all of").
pub fn authorize(claims: Option<Claims>, required_roles: &Vec<String>) -> (r: AccessDecision)
    ensures
        ({
            let req = required_roles.deep_view();
            let cl = claims.deep_view();
            match r {
                AccessDecision::Granted(c) => {
                    &&& c.deep_view() == cl
                    &&& req.len() == 0 || (cl matches Some(cv) && role_match(cv.roles, req))
                },
                AccessDecision::Denied(e) => {
                    &&& req.len() > 0
                    &&& match cl {
                        None => e == AuthError::Unauthenticated,
                        Some(cv) => e == AuthError::Forbidden && !role_match(cv.roles, req),
                    }
                },
            }
        }),
{
    if required_roles.len() == 0 {
        return AccessDecision::Granted(claims);
    }
    match claims {
        None => AccessDecision::Denied(AuthError::Unauthenticated),
        Some(cl) => {
            let mut k: usize = 0;
            while k < required_roles.len()
                invariant
                    k <= required_roles.len(),
                    claims == Some(cl),
                    forall|j: int, i: int|
                        0 <= j < k && 0 <= i < cl.roles.deep_view().len()
                            ==> cl.roles.deep_view()[i] != required_roles.deep_view()[j],
                decreases required_roles.len() - k,
            {
                proof {
                    assert(required_roles.deep_view()[k as int] == required_roles@[k as int]@);
                }
                if contains_role(&cl.roles, &required_roles[k]) {
                    proof {
                        let i = choose|i: int|
                            0 <= i < cl.roles.deep_view().len() && cl.roles.deep_view()[i]
                                == required_roles@[k as int]@;
                        assert(cl.roles.deep_view()[i] == required_roles.deep_view()[k as int]);
                        assert(role_match(cl@.roles, required_roles.deep_view()));
                    }
                    return AccessDecision::Granted(Some(cl));
                }
                k = k + 1;
            }
            proof {
                assert(!role_match(cl.roles.deep_view(), required_roles.deep_view()));
            }
            AccessDecision::Denied(AuthError::Forbidden)
        },
    }
}

} // verus!

