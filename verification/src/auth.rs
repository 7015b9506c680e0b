//! Authentication and authorization decisions for the control API.
//!
//! Modes: none (trusted LAN), PIN, API token, and full (currently handled
//! as token). A request's credentials are turned into an [`AuthContext`],
//! whose permissions decide what the request may do.

use vstd::prelude::*;
use crate::api_error::{Error as ApiError, ErrorView as ApiErrorView};
use crate::text::{has_prefix, str_equal, strip_prefix_or_self, without_prefix, push_str};
#[allow(unused_imports)]
use rand::Rng;
use base64::Engine;

verus! {

/// Authentication mode.
#[derive(Debug, Clone, Copy, PartialEq, Eq, Structural)]
pub enum SecurityMode {
    /// No authentication required.
    NoAuth,
    /// Simple PIN-based authentication.
    Pin,
    /// API token authentication.
    Token,
    /// Full role-based access control.
    Full,
}

impl Default for SecurityMode {
    fn default() -> (r: Self)
        ensures
            r == SecurityMode::NoAuth,
    {
        SecurityMode::NoAuth
    }
}

/// Permission types for API operations.
#[derive(Debug, Clone, Copy, PartialEq, Eq, Hash, Structural)]
pub enum Permission {
    /// Read access (GET operations).
    Read,
    /// Create connections.
    Connect,
    /// Remove connections.
    Disconnect,
    /// Modify existing connections (volume, mute).
    Modify,
    /// Administrative operations.
    Admin,
}

/// The set of every permission.
pub open spec fn all_permissions() -> Set<Permission> {
    set![Permission::Read, Permission::Connect, Permission::Disconnect, Permission::Modify, Permission::Admin]
}

/// The permissions of a standard user: everything but administration.
pub open spec fn standard_permissions() -> Set<Permission> {
    set![Permission::Read, Permission::Connect, Permission::Disconnect, Permission::Modify]
}

/// The permissions of a read-only client.
pub open spec fn read_only_permissions() -> Set<Permission> {
    set![Permission::Read]
}

impl Permission {
    /// Returns all available permissions.
    pub fn all() -> (r: PermissionSet)
        ensures
            r@ == all_permissions(),
    {
        let r = PermissionSet { read: true, connect: true, disconnect: true, modify: true, admin: true };
        assert(r@ =~= all_permissions());
        r
    }

    /// Returns read-only permissions.
    pub fn read_only() -> (r: PermissionSet)
        ensures
            r@ == read_only_permissions(),
    {
        let r = PermissionSet { read: true, connect: false, disconnect: false, modify: false, admin: false };
        assert(r@ =~= read_only_permissions());
        r
    }

    /// Returns standard user permissions (no admin).
    pub fn standard() -> (r: PermissionSet)
        ensures
            r@ == standard_permissions(),
    {
        let r = PermissionSet { read: true, connect: true, disconnect: true, modify: true, admin: false };
        assert(r@ =~= standard_permissions());
        r
    }

    /// The variant's name, as `{:?}` writes it.
    pub open spec fn spec_name(self) -> Seq<char> {
        match self {
            Permission::Read => "Read"@,
            Permission::Connect => "Connect"@,
            Permission::Disconnect => "Disconnect"@,
            Permission::Modify => "Modify"@,
            Permission::Admin => "Admin"@,
        }
    }

    /// The variant's name, as `{:?}` writes it.
    pub fn name(self) -> (r: &'static str)
        ensures
            r@ == self.spec_name(),
    {
        match self {
            Permission::Read => "Read",
            Permission::Connect => "Connect",
            Permission::Disconnect => "Disconnect",
            Permission::Modify => "Modify",
            Permission::Admin => "Admin",
        }
    }
}

/// A set of permissions.
#[derive(Debug, Clone, Copy, PartialEq, Eq, Structural)]
pub struct PermissionSet {
    read: bool,
    connect: bool,
    disconnect: bool,
    modify: bool,
    admin: bool,
}

impl PermissionSet {
    /// Whether `p` is a member.
    pub closed spec fn has(self, p: Permission) -> bool {
        match p {
            Permission::Read => self.read,
            Permission::Connect => self.connect,
            Permission::Disconnect => self.disconnect,
            Permission::Modify => self.modify,
            Permission::Admin => self.admin,
        }
    }

    /// The empty set.
    pub fn new() -> (r: Self)
        ensures
            r@ == Set::<Permission>::empty(),
    {
        let r = PermissionSet { read: false, connect: false, disconnect: false, modify: false, admin: false };
        assert(r@ =~= Set::<Permission>::empty());
        r
    }

    /// Whether `p` is a member.
    pub fn contains(&self, p: &Permission) -> (r: bool)
        ensures
            r == self@.contains(*p),
    {
        match *p {
            Permission::Read => self.read,
            Permission::Connect => self.connect,
            Permission::Disconnect => self.disconnect,
            Permission::Modify => self.modify,
            Permission::Admin => self.admin,
        }
    }

    /// Adds `p`; returns whether it was absent before.
    pub fn insert(&mut self, p: Permission) -> (r: bool)
        ensures
            final(self)@ == old(self)@.insert(p),
            r == !old(self)@.contains(p),
    {
        let r = !self.contains(&p);
        match p {
            Permission::Read => { self.read = true; },
            Permission::Connect => { self.connect = true; },
            Permission::Disconnect => { self.disconnect = true; },
            Permission::Modify => { self.modify = true; },
            Permission::Admin => { self.admin = true; },
        }
        assert(self@ =~= old(self)@.insert(p));
        r
    }

    /// Whether the set has no member.
    pub fn is_empty(&self) -> (r: bool)
        ensures
            r == (self@ == Set::<Permission>::empty()),
    {
        let r = !self.read && !self.connect && !self.disconnect && !self.modify && !self.admin;
        if !r {
            if self.read { assert(self@.contains(Permission::Read)); }
            if self.connect { assert(self@.contains(Permission::Connect)); }
            if self.disconnect { assert(self@.contains(Permission::Disconnect)); }
            if self.modify { assert(self@.contains(Permission::Modify)); }
            if self.admin { assert(self@.contains(Permission::Admin)); }
        } else {
            assert(self@ =~= Set::<Permission>::empty());
        }
        r
    }
}

impl View for PermissionSet {
    type V = Set<Permission>;

    open spec fn view(&self) -> Set<Permission> {
        Set::new(|p: Permission| self.has(p))
    }
}

/// Default for `read_only_without_auth`: reads are allowed without credentials.
pub fn default_true() -> (r: bool)
    ensures
        r,
{
    true
}

/// The URL-safe base64 encoding, without padding, of `bytes`.
pub uninterp spec fn base64_url_safe_no_pad(bytes: Seq<u8>) -> Seq<char>;

/// A character of the URL-safe base64 alphabet.
pub open spec fn is_url_safe_base64_char(c: char) -> bool {
    ('A' <= c <= 'Z') || ('a' <= c <= 'z') || ('0' <= c <= '9') || c == '-' || c == '_'
}

/// Calls `base64::engine::general_purpose::URL_SAFE_NO_PAD.encode`; its
/// result is named by [`base64_url_safe_no_pad`] and is a function of the
/// input bytes alone. The crate documents the engine's alphabet as the
/// URL-safe one and its output as unpadded, so 32 bytes give 43 characters
/// of that alphabet.
#[verifier::external_body]
fn encode_url_safe_no_pad(bytes: &[u8; 32]) -> (r: String)
    ensures
        r@ == base64_url_safe_no_pad(bytes@),
        r@.len() == 43,
        forall|i: int| 0 <= i < r@.len() ==> is_url_safe_base64_char(#[trigger] r@[i]),
{
    base64::engine::general_purpose::URL_SAFE_NO_PAD.encode(bytes)
}

/// Fills 32 bytes from `rand::rng()` (`rand::Rng::fill`); the bytes are
/// random, so nothing is promised of them.
#[verifier::external_body]
fn random_bytes_32() -> (r: [u8; 32]) {
    let mut bytes = [0u8; 32];
    rand::rng().fill(&mut bytes);
    bytes
}

/// Security configuration.
#[derive(Debug)]
pub struct SecurityConfig {
    /// Authentication mode.
    pub mode: SecurityMode,
    /// PIN for PIN mode (4-6 digits).
    pub pin: Option<String>,
    /// API token for token mode.
    pub api_token: Option<String>,
    /// Allow read operations without authentication.
    pub read_only_without_auth: bool,
}

/// The contents of a [`SecurityConfig`].
pub struct SecurityConfigView {
    pub mode: SecurityMode,
    pub pin: Option<Seq<char>>,
    pub api_token: Option<Seq<char>>,
    pub read_only_without_auth: bool,
}

/// The view of an optional string.
pub open spec fn opt_view(o: Option<String>) -> Option<Seq<char>> {
    match o {
        Some(s) => Some(s@),
        None => None,
    }
}

fn clone_opt_string(o: &Option<String>) -> (r: Option<String>)
    ensures
        opt_view(r) == opt_view(*o),
{
    match o {
        Some(s) => Some(s.clone()),
        None => None,
    }
}

impl View for SecurityConfig {
    type V = SecurityConfigView;

    open spec fn view(&self) -> SecurityConfigView {
        SecurityConfigView {
            mode: self.mode,
            pin: opt_view(self.pin),
            api_token: opt_view(self.api_token),
            read_only_without_auth: self.read_only_without_auth,
        }
    }
}

impl Clone for SecurityConfig {
    fn clone(&self) -> (r: Self)
        ensures
            r@ == self@,
    {
        SecurityConfig {
            mode: self.mode,
            pin: clone_opt_string(&self.pin),
            api_token: clone_opt_string(&self.api_token),
            read_only_without_auth: self.read_only_without_auth,
        }
    }
}

impl Default for SecurityConfig {
    fn default() -> (r: Self)
        ensures
            r@.mode == SecurityMode::NoAuth,
            r@.pin is None,
            r@.api_token is None,
            r@.read_only_without_auth,
    {
        SecurityConfig { mode: SecurityMode::NoAuth, pin: None, api_token: None, read_only_without_auth: true }
    }
}

/// How far a request is trusted.
#[derive(Debug, Clone, Copy, PartialEq, Eq, Structural)]
pub enum AccessLevel {
    /// Every permission.
    Admin,
    /// Every permission but administration.
    Standard,
    /// Reads only, without being authenticated.
    ReadOnly,
    /// Nothing.
    Unauthenticated,
}

/// The credential of a token or full mode request: the header's value
/// without a leading "Bearer ".
pub open spec fn bearer_token(cred: Seq<char>) -> Seq<char> {
    without_prefix(cred, "Bearer "@)
}

/// The level a request with `credentials` obtains under `config`.
pub open spec fn access_level(config: SecurityConfigView, credentials: Option<Seq<char>>) -> AccessLevel {
    let fallback = if config.read_only_without_auth { AccessLevel::ReadOnly } else { AccessLevel::Unauthenticated };
    match config.mode {
        SecurityMode::NoAuth => AccessLevel::Admin,
        SecurityMode::Pin => {
            if credentials is Some && config.pin == Some(credentials->0) {
                AccessLevel::Standard
            } else {
                fallback
            }
        },
        SecurityMode::Token | SecurityMode::Full => {
            if credentials is Some && config.api_token == Some(bearer_token(credentials->0)) {
                AccessLevel::Admin
            } else {
                fallback
            }
        },
    }
}

impl SecurityConfig {
    /// Creates a new security config with no authentication.
    pub fn none() -> (r: Self)
        ensures
            r@.mode == SecurityMode::NoAuth,
            r@.pin is None,
            r@.api_token is None,
            r@.read_only_without_auth,
    {
        Self::default()
    }

    /// Creates a PIN-based security config.
    pub fn with_pin(pin: &str) -> (r: Self)
        ensures
            r@.mode == SecurityMode::Pin,
            r@.pin == Some(pin@),
            r@.api_token is None,
            r@.read_only_without_auth,
    {
        SecurityConfig {
            mode: SecurityMode::Pin,
            pin: Some(String::from_str(pin)),
            api_token: None,
            read_only_without_auth: true,
        }
    }

    /// Creates a token-based security config.
    pub fn with_token(token: &str) -> (r: Self)
        ensures
            r@.mode == SecurityMode::Token,
            r@.pin is None,
            r@.api_token == Some(token@),
            r@.read_only_without_auth,
    {
        SecurityConfig {
            mode: SecurityMode::Token,
            pin: None,
            api_token: Some(String::from_str(token)),
            read_only_without_auth: true,
        }
    }

    /// Generates a new random API token: 32 random bytes in URL-safe base64
    /// without padding.
    pub fn generate_token() -> (r: String)
        ensures
            exists|bytes: Seq<u8>| bytes.len() == 32 && r@ == base64_url_safe_no_pad(bytes),
            r@.len() == 43,
            forall|i: int| 0 <= i < r@.len() ==> is_url_safe_base64_char(#[trigger] r@[i]),
    {
        let bytes = random_bytes_32();
        let r = encode_url_safe_no_pad(&bytes);
        assert(bytes@.len() == 32);
        r
    }

    /// The level that a request with `credentials` obtains under this configuration.
    pub fn access_level(&self, credentials: Option<&str>) -> (r: AccessLevel)
        ensures
            r == access_level(self@, match credentials { Some(c) => Some(c@), None => None }),
    {
        let fallback = if self.read_only_without_auth { AccessLevel::ReadOnly } else { AccessLevel::Unauthenticated };
        match self.mode {
            SecurityMode::NoAuth => AccessLevel::Admin,
            SecurityMode::Pin => {
                match (credentials, &self.pin) {
                    (Some(cred), Some(pin)) => {
                        if str_equal(pin.as_str(), cred) { AccessLevel::Standard } else { fallback }
                    },
                    _ => fallback,
                }
            },
            SecurityMode::Token | SecurityMode::Full => {
                match (credentials, &self.api_token) {
                    (Some(cred), Some(tok)) => {
                        let token = strip_prefix_or_self(cred, "Bearer ");
                        if str_equal(tok.as_str(), token) { AccessLevel::Admin } else { fallback }
                    },
                    _ => fallback,
                }
            },
        }
    }

    /// Validates credentials and returns the resulting context.
    pub fn authenticate(&self, credentials: Option<&str>) -> (r: AuthContext)
        ensures
            r@ == context_for(access_level(self@, match credentials { Some(c) => Some(c@), None => None })),
    {
        AuthContext::for_level(self.access_level(credentials))
    }
}

/// The contents of an [`AuthContext`].
pub struct AuthContextView {
    pub authenticated: bool,
    pub permissions: Set<Permission>,
    pub user_id: Option<Seq<char>>,
}

/// The context that each access level grants.
pub open spec fn context_for(level: AccessLevel) -> AuthContextView {
    match level {
        AccessLevel::Admin => AuthContextView {
            authenticated: true,
            permissions: all_permissions(),
            user_id: Some("admin"@),
        },
        AccessLevel::Standard => AuthContextView {
            authenticated: true,
            permissions: standard_permissions(),
            user_id: None,
        },
        AccessLevel::ReadOnly => AuthContextView {
            authenticated: false,
            permissions: read_only_permissions(),
            user_id: None,
        },
        AccessLevel::Unauthenticated => AuthContextView {
            authenticated: false,
            permissions: Set::empty(),
            user_id: None,
        },
    }
}

/// Authenticated user context.
#[derive(Debug, Clone)]
pub struct AuthContext {
    /// Whether the user is authenticated.
    pub authenticated: bool,
    /// User's permissions.
    pub permissions: PermissionSet,
    /// Optional user identifier (for logging).
    pub user_id: Option<String>,
}

impl View for AuthContext {
    type V = AuthContextView;

    open spec fn view(&self) -> AuthContextView {
        AuthContextView {
            authenticated: self.authenticated,
            permissions: self.permissions@,
            user_id: opt_view(self.user_id),
        }
    }
}

impl Default for AuthContext {
    fn default() -> (r: Self)
        ensures
            r@ == context_for(AccessLevel::Unauthenticated),
    {
        AuthContext { authenticated: false, permissions: PermissionSet::new(), user_id: None }
    }
}

impl AuthContext {
    /// Creates an unauthenticated context.
    pub fn unauthenticated() -> (r: Self)
        ensures
            r@ == context_for(AccessLevel::Unauthenticated),
    {
        Self::default()
    }

    /// Creates a fully authenticated admin context.
    pub fn admin() -> (r: Self)
        ensures
            r@ == context_for(AccessLevel::Admin),
    {
        AuthContext { authenticated: true, permissions: Permission::all(), user_id: Some(String::from_str("admin")) }
    }

    /// Creates an authenticated context with standard permissions.
    pub fn standard_user() -> (r: Self)
        ensures
            r@ == context_for(AccessLevel::Standard),
    {
        AuthContext { authenticated: true, permissions: Permission::standard(), user_id: None }
    }

    /// Creates a read-only context.
    pub fn read_only() -> (r: Self)
        ensures
            r@ == context_for(AccessLevel::ReadOnly),
    {
        AuthContext { authenticated: false, permissions: Permission::read_only(), user_id: None }
    }

    /// The context that `level` grants.
    pub fn for_level(level: AccessLevel) -> (r: Self)
        ensures
            r@ == context_for(level),
    {
        match level {
            AccessLevel::Admin => Self::admin(),
            AccessLevel::Standard => Self::standard_user(),
            AccessLevel::ReadOnly => Self::read_only(),
            AccessLevel::Unauthenticated => Self::unauthenticated(),
        }
    }

    /// Checks if the context has a specific permission.
    pub fn has_permission(&self, permission: Permission) -> (r: bool)
        ensures
            r == self@.permissions.contains(permission),
    {
        self.permissions.contains(&permission)
    }

    /// Checks if the context has all specified permissions.
    pub fn has_all_permissions(&self, permissions: &[Permission]) -> (r: bool)
        ensures
            r == (forall|i: int| 0 <= i < permissions@.len() ==> self@.permissions.contains(#[trigger] permissions@[i])),
    {
        let n = permissions.len();
        let mut i: usize = 0;
        while i < n
            invariant
                n == permissions@.len(),
                i <= n,
                forall|j: int| 0 <= j < i ==> self@.permissions.contains(#[trigger] permissions@[j]),
            decreases n - i,
        {
            if !self.permissions.contains(&permissions[i]) {
                return false;
            }
            i = i + 1;
        }
        true
    }
}

/// Authentication manager: holds the security configuration and answers
/// authentication requests against it.
#[derive(Debug, Clone)]
pub struct AuthManager {
    config: SecurityConfig,
}

impl View for AuthManager {
    type V = SecurityConfigView;

    closed spec fn view(&self) -> SecurityConfigView {
        self.config@
    }
}

impl AuthManager {
    /// Creates a new authentication manager.
    pub fn new(config: SecurityConfig) -> (r: Self)
        ensures
            r@ == config@,
    {
        AuthManager { config }
    }

    /// Creates an authentication manager with no security.
    pub fn no_auth() -> (r: Self)
        ensures
            r@.mode == SecurityMode::NoAuth,
            r@.pin is None,
            r@.api_token is None,
            r@.read_only_without_auth,
    {
        Self::new(SecurityConfig::none())
    }

    /// Returns the current security mode.
    pub fn mode(&self) -> (r: SecurityMode)
        ensures
            r == self@.mode,
    {
        self.config.mode
    }

    /// Validates credentials and returns an auth context.
    pub fn authenticate(&self, credentials: Option<&str>) -> (r: AuthContext)
        ensures
            r@ == context_for(access_level(self@, match credentials { Some(c) => Some(c@), None => None })),
    {
        self.config.authenticate(credentials)
    }

    /// Updates the security configuration.
    pub fn set_config(&mut self, config: SecurityConfig)
        ensures
            final(self)@ == config@,
    {
        self.config = config;
    }

    /// Gets a copy of the current configuration.
    pub fn config(&self) -> (r: SecurityConfig)
        ensures
            r@ == self@,
    {
        self.config.clone()
    }
}

impl Default for AuthManager {
    fn default() -> (r: Self)
        ensures
            r@.mode == SecurityMode::NoAuth,
            r@.pin is None,
            r@.api_token is None,
            r@.read_only_without_auth,
    {
        Self::no_auth()
    }
}

/// Validates a WebSocket authentication query parameter.
pub fn validate_ws_auth(auth_manager: &AuthManager, auth_param: Option<&str>) -> (r: AuthContext)
    ensures
        r@ == context_for(access_level(auth_manager@, match auth_param { Some(c) => Some(c@), None => None })),
{
    auth_manager.authenticate(auth_param)
}

/// The text of the error for a permission that a context lacks.
pub open spec fn denied_message(p: Permission) -> Seq<char> {
    "Permission denied: "@ + p.spec_name()
}

/// The outcome of a permission check: `None` when allowed.
pub open spec fn permission_check(ctx: AuthContextView, p: Permission) -> Option<ApiErrorKind> {
    if !ctx.authenticated && p != Permission::Read {
        Some(ApiErrorKind::Unauthorized)
    } else if !ctx.permissions.contains(p) {
        Some(ApiErrorKind::Forbidden)
    } else {
        None
    }
}

/// The kind of an authorization failure.
#[derive(Debug, Clone, Copy, PartialEq, Eq, Structural)]
pub enum ApiErrorKind {
    Unauthorized,
    Forbidden,
}

/// Authentication extractor: the context of the current request.
#[derive(Debug, Clone)]
pub struct Auth(pub AuthContext);

impl Auth {
    /// Requires a specific permission.
    ///
    /// Unauthenticated contexts may only read; otherwise the permission must
    /// be held.
    pub fn require_permission(&self, permission: Permission) -> (r: Result<(), ApiError>)
        ensures
            permission_check(self.0@, permission) is None <==> r is Ok,
            permission_check(self.0@, permission) == Some(ApiErrorKind::Unauthorized) ==>
                (r matches Err(e) && e@ == ApiErrorView::Unauthorized("Authentication required"@)),
            permission_check(self.0@, permission) == Some(ApiErrorKind::Forbidden) ==>
                (r matches Err(e) && e@ == ApiErrorView::Forbidden(denied_message(permission))),
    {
        if !self.0.authenticated && permission != Permission::Read {
            return Err(ApiError::unauthorized("Authentication required"));
        }
        if !self.0.has_permission(permission) {
            let mut msg = String::from_str("Permission denied: ");
            push_str(&mut msg, permission.name());
            return Err(ApiError::forbidden(msg));
        }
        Ok(())
    }

    /// Requires authentication (any valid auth).
    pub fn require_auth(&self) -> (r: Result<(), ApiError>)
        ensures
            self.0.authenticated <==> r is Ok,
            !self.0.authenticated ==> (r matches Err(e) && e@ == ApiErrorView::Unauthorized("Authentication required"@)),
    {
        if !self.0.authenticated {
            return Err(ApiError::unauthorized("Authentication required"));
        }
        Ok(())
    }
}

/// Authentication only lets the configured secret in: with no
/// authentication every request is trusted fully; otherwise the configured
/// PIN gives standard access, the configured token (bare, where it does not
/// itself begin with "Bearer ", or after "Bearer ") gives full access, and
/// any other request gets at most read access.
pub proof fn law_access_needs_the_secret(config: SecurityConfigView, credentials: Option<Seq<char>>)
    ensures
        config.mode == SecurityMode::NoAuth ==> access_level(config, credentials) == AccessLevel::Admin,
        config.mode == SecurityMode::Pin && config.pin is Some ==> access_level(config, Some(config.pin->0))
            == AccessLevel::Standard,
        (config.mode == SecurityMode::Token || config.mode == SecurityMode::Full) && config.api_token is Some ==> {
            &&& access_level(config, Some("Bearer "@ + config.api_token->0)) == AccessLevel::Admin
            &&& !has_prefix(config.api_token->0, "Bearer "@) ==> access_level(config, Some(config.api_token->0))
                == AccessLevel::Admin
        },
        config.mode != SecurityMode::NoAuth && access_level(config, credentials) != AccessLevel::ReadOnly
            && access_level(config, credentials) != AccessLevel::Unauthenticated ==> credentials is Some && (
        config.pin == Some(credentials->0) || config.api_token == Some(bearer_token(credentials->0))),
        !config.read_only_without_auth && access_level(config, credentials) == AccessLevel::ReadOnly ==> false,
{
    reveal_strlit("Bearer ");
    if let Some(t) = config.api_token {
        let prefixed = "Bearer "@ + t;
        assert(prefixed.subrange(0, 7) =~= "Bearer "@);
        assert(prefixed.subrange(7, prefixed.len() as int) =~= t);
    }
}


/// A request that does not present the configured secret (no credentials,
/// or credentials that are not it) gets, in every mode that asks for one,
/// read access exactly when reads are allowed without authentication, and
/// nothing otherwise; presenting the secret gives the mode's level. With no
/// authentication at all, every request is admin.
pub proof fn law_access_without_the_secret(config: SecurityConfigView, credentials: Option<Seq<char>>)
    ensures
        config.mode == SecurityMode::NoAuth ==> access_level(config, credentials) == AccessLevel::Admin,
        config.mode != SecurityMode::NoAuth && credentials is None ==> access_level(config, credentials) == (
        if config.read_only_without_auth {
            AccessLevel::ReadOnly
        } else {
            AccessLevel::Unauthenticated
        }),
        config.mode == SecurityMode::Pin && !(credentials is Some && config.pin == Some(credentials->0))
            ==> access_level(config, credentials) == access_level(config, None),
        config.mode == SecurityMode::Pin && credentials is Some && config.pin == Some(credentials->0)
            ==> access_level(config, credentials) == AccessLevel::Standard,
        (config.mode == SecurityMode::Token || config.mode == SecurityMode::Full) && !(credentials is Some
            && config.api_token == Some(bearer_token(credentials->0))) ==> access_level(config, credentials)
            == access_level(config, None),
        (config.mode == SecurityMode::Token || config.mode == SecurityMode::Full) && credentials is Some
            && config.api_token == Some(bearer_token(credentials->0)) ==> access_level(config, credentials)
            == AccessLevel::Admin,
{
}

} // verus!
