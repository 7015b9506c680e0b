use ram::auth::{AccessLevel, Auth, AuthContext, AuthManager, Permission, SecurityConfig, SecurityMode};
use ram::api_error::Error as ApiError;

#[test]
fn security_mode_default_is_none() {
    assert_eq!(SecurityMode::default(), SecurityMode::NoAuth);
}

#[test]
fn security_config_default() {
    let config = SecurityConfig::default();
    assert_eq!(config.mode, SecurityMode::NoAuth);
    assert!(config.pin.is_none());
    assert!(config.api_token.is_none());
    assert!(config.read_only_without_auth);
}

#[test]
fn security_config_with_pin() {
    let config = SecurityConfig::with_pin("1234");
    assert_eq!(config.mode, SecurityMode::Pin);
    assert_eq!(config.pin, Some("1234".to_string()));
}

#[test]
fn security_config_with_token() {
    let config = SecurityConfig::with_token("my-token");
    assert_eq!(config.mode, SecurityMode::Token);
    assert_eq!(config.api_token, Some("my-token".to_string()));
}

#[test]
fn generate_token_is_unique() {
    let t1 = SecurityConfig::generate_token();
    let t2 = SecurityConfig::generate_token();
    assert_ne!(t1, t2);
    assert!(!t1.is_empty());
    // 32 bytes in unpadded base64 take 43 characters.
    assert_eq!(t1.len(), 43);
}

#[test]
fn auth_context_unauthenticated() {
    let ctx = AuthContext::unauthenticated();
    assert!(!ctx.authenticated);
    assert!(ctx.permissions.is_empty());
}

#[test]
fn auth_context_admin() {
    let ctx = AuthContext::admin();
    assert!(ctx.authenticated);
    assert!(ctx.has_permission(Permission::Read));
    assert!(ctx.has_permission(Permission::Admin));
    assert!(ctx.has_permission(Permission::Modify));
}

#[test]
fn auth_context_standard_user() {
    let ctx = AuthContext::standard_user();
    assert!(ctx.authenticated);
    assert!(ctx.has_permission(Permission::Read));
    assert!(ctx.has_permission(Permission::Modify));
    assert!(!ctx.has_permission(Permission::Admin));
}

#[test]
fn auth_context_read_only() {
    let ctx = AuthContext::read_only();
    assert!(!ctx.authenticated);
    assert!(ctx.has_permission(Permission::Read));
    assert!(!ctx.has_permission(Permission::Modify));
}

#[test]
fn auth_manager_no_auth_mode() {
    let manager = AuthManager::no_auth();
    let ctx = manager.authenticate(None);
    assert!(ctx.authenticated);
    assert!(ctx.has_permission(Permission::Admin));
}

#[test]
fn auth_manager_pin_mode_valid() {
    let manager = AuthManager::new(SecurityConfig::with_pin("1234"));
    let ctx = manager.authenticate(Some("1234"));
    assert!(ctx.authenticated);
    assert!(ctx.has_permission(Permission::Modify));
    assert!(!ctx.has_permission(Permission::Admin));
}

#[test]
fn auth_manager_pin_mode_invalid() {
    let manager = AuthManager::new(SecurityConfig::with_pin("1234"));
    let ctx = manager.authenticate(Some("wrong"));
    assert!(!ctx.authenticated);
    assert!(ctx.has_permission(Permission::Read));
}

#[test]
fn auth_manager_token_mode_valid() {
    let manager = AuthManager::new(SecurityConfig::with_token("secret"));
    let ctx = manager.authenticate(Some("Bearer secret"));
    assert!(ctx.authenticated);
    assert!(ctx.has_permission(Permission::Admin));
}

#[test]
fn auth_manager_token_mode_without_bearer() {
    let manager = AuthManager::new(SecurityConfig::with_token("secret"));
    let ctx = manager.authenticate(Some("secret"));
    assert!(ctx.authenticated);
}

#[test]
fn auth_manager_token_mode_invalid() {
    let manager = AuthManager::new(SecurityConfig::with_token("secret"));
    let ctx = manager.authenticate(Some("Bearer wrong"));
    assert!(!ctx.authenticated);
}

#[test]
fn permission_all_contains_every_permission() {
    let all = Permission::all();
    assert!(all.contains(&Permission::Read));
    assert!(all.contains(&Permission::Connect));
    assert!(all.contains(&Permission::Disconnect));
    assert!(all.contains(&Permission::Modify));
    assert!(all.contains(&Permission::Admin));
}

#[test]
fn permission_standard_no_admin() {
    let standard = Permission::standard();
    assert!(standard.contains(&Permission::Read));
    assert!(standard.contains(&Permission::Modify));
    assert!(!standard.contains(&Permission::Admin));
}

#[test]
fn has_all_permissions() {
    let ctx = AuthContext::admin();
    assert!(ctx.has_all_permissions(&[Permission::Read, Permission::Modify]));

    let readonly = AuthContext::read_only();
    assert!(!readonly.has_all_permissions(&[Permission::Read, Permission::Modify]));
}

#[test]
fn ws_auth_validation() {
    let manager = AuthManager::new(SecurityConfig::with_token("secret"));

    let valid = ram::auth::validate_ws_auth(&manager, Some("secret"));
    assert!(valid.authenticated);

    let invalid = ram::auth::validate_ws_auth(&manager, Some("wrong"));
    assert!(!invalid.authenticated);
}

#[test]
fn pin_mode_without_read_access_denies_everything() {
    let mut config = SecurityConfig::with_pin("1234");
    config.read_only_without_auth = false;
    assert_eq!(config.access_level(Some("0000")), AccessLevel::Unauthenticated);
    assert_eq!(config.access_level(None), AccessLevel::Unauthenticated);
    assert_eq!(config.access_level(Some("1234")), AccessLevel::Standard);
    let ctx = config.authenticate(None);
    assert!(!ctx.has_permission(Permission::Read));
}

#[test]
fn full_mode_is_treated_as_token_mode() {
    let mut config = SecurityConfig::with_token("t0k");
    config.mode = SecurityMode::Full;
    assert_eq!(config.access_level(Some("Bearer t0k")), AccessLevel::Admin);
    assert_eq!(config.access_level(Some("Bearer  t0k")), AccessLevel::ReadOnly);
    assert_eq!(config.access_level(Some("bearer t0k")), AccessLevel::ReadOnly);
}

#[test]
fn auth_manager_set_config_changes_mode() {
    let mut manager = AuthManager::no_auth();
    assert_eq!(manager.mode(), SecurityMode::NoAuth);
    manager.set_config(SecurityConfig::with_pin("42"));
    assert_eq!(manager.mode(), SecurityMode::Pin);
    assert_eq!(manager.config().pin, Some("42".to_string()));
}

#[test]
fn require_permission_errors() {
    let ro = Auth(AuthContext::read_only());
    assert!(ro.require_permission(Permission::Read).is_ok());
    match ro.require_permission(Permission::Modify) {
        Err(ApiError::Unauthorized(m)) => assert_eq!(m, "Authentication required"),
        other => panic!("unexpected {:?}", other),
    }
    let std_user = Auth(AuthContext::standard_user());
    match std_user.require_permission(Permission::Admin) {
        Err(ApiError::Forbidden(m)) => assert_eq!(m, "Permission denied: Admin"),
        other => panic!("unexpected {:?}", other),
    }
    assert!(std_user.require_auth().is_ok());
    assert!(Auth(AuthContext::unauthenticated()).require_auth().is_err());
    // An unauthenticated context without read permission is forbidden to read.
    match Auth(AuthContext::unauthenticated()).require_permission(Permission::Read) {
        Err(ApiError::Forbidden(m)) => assert_eq!(m, "Permission denied: Read"),
        other => panic!("unexpected {:?}", other),
    }
}

#[test]
fn api_error_status_and_messages() {
    let e = ApiError::NotFound("x".to_string());
    assert_eq!(e.status_code(), 404);
    assert_eq!(e.message(), "not found: x");
    assert_eq!(e.body_message(), "x");
    let c = ApiError::Core(ram::error::Error::InvalidChannelCount(300));
    assert_eq!(c.status_code(), 500);
    assert_eq!(c.body_message(), "invalid channel count: 300 (max: 256)");
    assert_eq!(c.message(), "core error: invalid channel count: 300 (max: 256)");
    let b = ram::error::Error::BufferOverflow { attempted: 10, available: 3 };
    assert_eq!(b.message(), "buffer overflow: tried to write 10 samples but only 3 available");
    let s = ram::error::Error::SampleRateMismatch { expected: 48000, actual: 44100 };
    assert_eq!(s.message(), "sample rate mismatch: expected 48000 Hz, got 44100 Hz");
    assert_eq!(ApiError::ServiceUnavailable("n".into()).status_code(), 503);
    assert_eq!(ApiError::Forbidden("n".into()).status_code(), 403);
    assert_eq!(ApiError::Unauthorized("n".into()).status_code(), 401);
    assert_eq!(ApiError::BadRequest("n".into()).status_code(), 400);
    assert_eq!(ApiError::Internal("n".into()).status_code(), 500);
}

#[test]
fn generated_token_is_43_url_safe_characters() {
    let t = SecurityConfig::generate_token();
    assert_eq!(t.chars().count(), 43);
    assert!(t.chars().all(|c| c.is_ascii_alphanumeric() || c == '-' || c == '_'));
}

#[test]
fn access_needs_the_configured_secret() {
    let pin = SecurityConfig::with_pin("1234");
    assert_eq!(pin.access_level(Some("1234")), AccessLevel::Standard);
    assert_eq!(pin.access_level(Some("0000")), AccessLevel::ReadOnly);
    let token = SecurityConfig::with_token("secret");
    assert_eq!(token.access_level(Some("secret")), AccessLevel::Admin);
    assert_eq!(token.access_level(Some("Bearer secret")), AccessLevel::Admin);
    assert_eq!(token.access_level(Some("Bearer wrong")), AccessLevel::ReadOnly);
    assert_eq!(SecurityConfig::none().access_level(None), AccessLevel::Admin);
}
