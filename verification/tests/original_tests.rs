use dopablocker_backend::auth::{FirebaseAuthInfo, FirebaseClaims};
use dopablocker_backend::blocklist::format_blocklist_etag;
use dopablocker_backend::config::{parse_email_delivery_mode, AppConfig, EmailDeliveryMode};
use dopablocker_backend::crypto::{constant_time_eq, email_code_hash, email_token_hash};
use dopablocker_backend::devices::{is_valid_kind, normalize_device_token};
use dopablocker_backend::email::{
    normalize_email, resolve_smtp_delivery, smtp_tls_mode_for_port, validate_code_shape, SmtpTlsMode,
};
use dopablocker_backend::errors::AppError;
use dopablocker_backend::models::{BlockMode, BlockedType, Platform, RegisterRequest};
use dopablocker_backend::random::format_numeric_code;
use dopablocker_backend::registration::{
    fallback_display_name, provider_is_already_verified, require_email_verification_token,
    requires_email_verification_code, resolve_registration_identity,
};
use dopablocker_backend::time::{iso_after, iso_before, iso_now};
use dopablocker_backend::util::{
    block_mode_to_sql, blocked_type_to_sql, parse_block_mode, parse_blocked_type, parse_platform,
    platform_to_sql, ServiceError,
};

// ---- config ----

#[test]
fn parses_email_delivery_mode_for_smtp_and_log() {
    assert_eq!(
        parse_email_delivery_mode(None).expect("default mode"),
        EmailDeliveryMode::Smtp
    );
    assert_eq!(
        parse_email_delivery_mode(Some("smtp")).expect("smtp mode"),
        EmailDeliveryMode::Smtp
    );
    assert_eq!(
        parse_email_delivery_mode(Some(" log ")).expect("log mode"),
        EmailDeliveryMode::Log
    );
    assert!(parse_email_delivery_mode(Some("outlook")).is_err());
}

// ---- util ----

#[test]
fn service_error_round_trip_through_message() {
    for tag in [
        ServiceError::LinkNotFound,
        ServiceError::LinkExpired,
        ServiceError::EmailCodeCooldown,
        ServiceError::EmailCodeInvalid,
        ServiceError::EmailTokenExpired,
    ] {
        let err = tokio_rusqlite::Error::Other(
            Box::<dyn std::error::Error + Send + Sync>::from(tag.tag()),
        );
        let msg = err.to_string();
        assert_eq!(ServiceError::from_message(&msg), Some(tag));
    }
}

#[test]
fn unknown_message_returns_none() {
    assert_eq!(ServiceError::from_message("UNIQUE constraint failed"), None);
}

#[test]
fn enum_display_matches_parse() {
    assert_eq!(parse_block_mode(block_mode_to_sql(&BlockMode::Personal)), BlockMode::Personal);
    assert_eq!(parse_block_mode(block_mode_to_sql(&BlockMode::Parental)), BlockMode::Parental);
    assert_eq!(parse_platform(platform_to_sql(&Platform::Windows)), Platform::Windows);
    assert_eq!(parse_platform(platform_to_sql(&Platform::Android)), Platform::Android);
    assert_eq!(parse_blocked_type(blocked_type_to_sql(&BlockedType::Domain)), BlockedType::Domain);
    assert_eq!(parse_blocked_type(blocked_type_to_sql(&BlockedType::App)), BlockedType::App);
}

#[test]
fn iso_format_is_lexicographically_ordered() {
    let earlier = iso_before(60).expect("representable instant");
    let now = iso_now().expect("representable instant");
    let later = iso_after(60).expect("representable instant");
    assert!(earlier.as_str() < now.as_str());
    assert!(now.as_str() < later.as_str());
}

// ---- email delivery (features/auth/email_delivery) ----

fn config_with_delivery_mode(email_delivery_mode: EmailDeliveryMode) -> AppConfig {
    AppConfig {
        port: 3000,
        database_path: "dopablocker.db".into(),
        database_key: "test-key".into(),
        firebase_project_id: "dopablocker-test".into(),
        email_code_secret: "test-secret".into(),
        email_delivery_mode,
        smtp: None,
        cors_allowed_origins: vec!["http://localhost:5173".into()],
    }
}

#[test]
fn email_delivery_uses_starttls_for_submission_port_and_wrapper_tls_for_smtps() {
    assert_eq!(smtp_tls_mode_for_port(587), SmtpTlsMode::StartTls);
    assert_eq!(smtp_tls_mode_for_port(465), SmtpTlsMode::WrapperTls);
}

#[test]
fn email_delivery_log_delivery_mode_does_not_require_smtp_config() {
    let config = config_with_delivery_mode(EmailDeliveryMode::Log);

    assert!(resolve_smtp_delivery(&config).expect("log mode").is_none());
}

#[test]
fn email_delivery_smtp_delivery_mode_requires_smtp_config() {
    let config = config_with_delivery_mode(EmailDeliveryMode::Smtp);

    assert!(resolve_smtp_delivery(&config).is_err());
}

// ---- registration (features/auth/routes) ----

fn payload(email: &str, display_name: &str) -> RegisterRequest {
    RegisterRequest {
        email: email.into(),
        display_name: display_name.into(),
        mode: BlockMode::Personal,
        email_verification_token: None,
    }
}

fn claims(email: Option<&str>, name: Option<&str>) -> FirebaseClaims {
    FirebaseClaims {
        sub: "firebase-uid".into(),
        email: email.map(str::to_string),
        name: name.map(str::to_string),
        email_verified: Some(true),
        firebase: None,
    }
}

fn claims_with_provider(provider: &str, email_verified: bool) -> FirebaseClaims {
    FirebaseClaims {
        sub: "firebase-uid".into(),
        email: Some("firebase@example.com".into()),
        name: Some("Firebase Name".into()),
        email_verified: Some(email_verified),
        firebase: Some(FirebaseAuthInfo {
            sign_in_provider: Some(provider.into()),
        }),
    }
}

#[test]
fn routes_rejects_mismatched_email_between_body_and_claims() {
    let result = resolve_registration_identity(
        &claims(Some("firebase@example.com"), Some("Firebase Name")),
        &payload("body@example.com", "Body Name"),
    );

    assert!(matches!(result, Err(AppError::BadRequest(_))));
}

#[test]
fn routes_prefers_claim_identity_when_available() {
    let result = resolve_registration_identity(
        &claims(Some("firebase@example.com"), Some("Firebase Name")),
        &payload("firebase@example.com", "Body Name"),
    )
    .expect("claims should win");

    assert_eq!(result.0, "firebase@example.com");
    assert_eq!(result.1, "Firebase Name");
}

#[test]
fn routes_falls_back_to_body_name_when_claim_name_is_missing() {
    let result = resolve_registration_identity(
        &claims(Some("firebase@example.com"), None),
        &payload("firebase@example.com", "Body Name"),
    )
    .expect("body name should be used");

    assert_eq!(result.1, "Body Name");
}

#[test]
fn routes_derives_display_name_from_email_when_needed() {
    let result = resolve_registration_identity(
        &claims(Some("focus.user@example.com"), None),
        &payload("focus.user@example.com", ""),
    )
    .expect("email fallback should work");

    assert_eq!(result.1, "focus.user");
    assert_eq!(fallback_display_name("focus.user@example.com"), "focus.user");
}

#[test]
fn require_email_verification_token_extracts_and_trims() {
    let mut p = payload("focus@example.com", "Focus");
    p.email_verification_token = Some("  tok-123  ".into());
    assert_eq!(
        require_email_verification_token(&p).expect("token presente"),
        "tok-123"
    );
}

#[test]
fn require_email_verification_token_rejects_missing_or_blank() {
    let mut p = payload("focus@example.com", "Focus");
    p.email_verification_token = None;
    assert!(require_email_verification_token(&p).is_err());

    p.email_verification_token = Some("   ".into());
    assert!(require_email_verification_token(&p).is_err());
}

#[test]
fn password_provider_requires_email_code() {
    let claims = claims_with_provider("password", false);

    assert!(requires_email_verification_code(&claims));
    assert!(!provider_is_already_verified(&claims));
}

#[test]
fn verified_google_provider_does_not_require_email_code() {
    let claims = claims_with_provider("google.com", true);

    assert!(!requires_email_verification_code(&claims));
    assert!(provider_is_already_verified(&claims));
}

// ---- registration (routes/auth, earlier claims without provider data) ----

fn plain_claims(email: Option<&str>, name: Option<&str>) -> FirebaseClaims {
    FirebaseClaims {
        sub: "firebase-uid".into(),
        email: email.map(str::to_string),
        name: name.map(str::to_string),
        email_verified: None,
        firebase: None,
    }
}

#[test]
fn auth_rejects_mismatched_email_between_body_and_claims() {
    let result = resolve_registration_identity(
        &plain_claims(Some("firebase@example.com"), Some("Firebase Name")),
        &payload("body@example.com", "Body Name"),
    );

    assert!(matches!(result, Err(AppError::BadRequest(_))));
}

#[test]
fn auth_prefers_claim_identity_when_available() {
    let result = resolve_registration_identity(
        &plain_claims(Some("firebase@example.com"), Some("Firebase Name")),
        &payload("firebase@example.com", "Body Name"),
    )
    .expect("claims should win");

    assert_eq!(result.0, "firebase@example.com");
    assert_eq!(result.1, "Firebase Name");
}

#[test]
fn auth_falls_back_to_body_name_when_claim_name_is_missing() {
    let result = resolve_registration_identity(
        &plain_claims(Some("firebase@example.com"), None),
        &payload("firebase@example.com", "Body Name"),
    )
    .expect("body name should be used");

    assert_eq!(result.1, "Body Name");
}

#[test]
fn auth_derives_display_name_from_email_when_needed() {
    let result = resolve_registration_identity(
        &plain_claims(Some("focus.user@example.com"), None),
        &payload("focus.user@example.com", ""),
    )
    .expect("email fallback should work");

    assert_eq!(result.1, "focus.user");
    assert_eq!(fallback_display_name("focus.user@example.com"), "focus.user");
}

// ---- blocklist ----

#[test]
fn etag_is_quoted_and_combines_count_and_timestamp() {
    let etag = format_blocklist_etag(3, Some("2026-06-21T10:00:00Z"));
    assert_eq!(etag, "\"3-2026-06-21T10:00:00Z\"");
}

#[test]
fn etag_changes_with_count_and_handles_empty_list() {
    assert_eq!(format_blocklist_etag(0, None), "\"0-\"");
    let a = format_blocklist_etag(2, Some("2026-06-21T10:00:00Z"));
    let b = format_blocklist_etag(1, Some("2026-06-21T10:00:00Z"));
    assert_ne!(a, b);
}

// ---- device events ----

#[test]
fn validates_known_event_kinds() {
    assert!(is_valid_kind("vpn_revoked"));
    assert!(is_valid_kind("vpn_settings_opened"));
    assert!(is_valid_kind("dns_settings_opened"));
    assert!(!is_valid_kind("bogus"));
    assert!(!is_valid_kind(""));
}

#[test]
fn strips_dt_prefix_and_whitespace_from_token() {
    assert_eq!(normalize_device_token("  dt_abc123 "), "abc123");
    assert_eq!(normalize_device_token("abc123"), "abc123");
}

// ---- email verification (services/auth_service) ----

fn service_config_with_delivery_mode(email_delivery_mode: EmailDeliveryMode) -> AppConfig {
    AppConfig {
        port: 3000,
        database_path: "dopablocker.db".into(),
        database_key: "test-key".into(),
        firebase_project_id: "dopablocker-test".into(),
        email_code_secret: "test-secret".into(),
        email_delivery_mode,
        smtp: None,
        cors_allowed_origins: Vec::new(),
    }
}

#[test]
fn normalizes_email_for_verification() {
    assert_eq!(
        normalize_email("  Focus.User@Example.COM  ").expect("valid email"),
        "focus.user@example.com"
    );
}

#[test]
fn rejects_invalid_verification_email() {
    assert!(normalize_email("not-an-email").is_err());
    assert!(normalize_email("  ").is_err());
}

#[test]
fn formats_numeric_code_with_zero_padding() {
    assert_eq!(format_numeric_code(42), "000042");
    assert_eq!(format_numeric_code(999_999), "999999");
}

#[test]
fn accepts_only_six_digit_codes() {
    assert!(validate_code_shape("000042").is_ok());
    assert!(validate_code_shape("123456").is_ok());
    assert!(validate_code_shape("12345").is_err());
    assert!(validate_code_shape("1234567").is_err());
    assert!(validate_code_shape("12a456").is_err());
}

#[test]
fn hashes_code_and_token_with_distinct_domains() {
    let secret = "test-secret";
    let email = "focus@example.com";

    let code_hash = email_code_hash(secret, email, "123456");
    let same_code_hash = email_code_hash(secret, email, "123456");
    let token_hash = email_token_hash(secret, "123456");

    assert_eq!(code_hash, same_code_hash);
    assert_ne!(code_hash, token_hash);
}

#[test]
fn compares_hashes_in_constant_time_style() {
    assert!(constant_time_eq("abc123", "abc123"));
    assert!(!constant_time_eq("abc123", "abc124"));
    assert!(!constant_time_eq("abc123", "abc1234"));
}

#[test]
fn auth_service_uses_starttls_for_submission_port_and_wrapper_tls_for_smtps() {
    assert_eq!(smtp_tls_mode_for_port(587), SmtpTlsMode::StartTls);
    assert_eq!(smtp_tls_mode_for_port(465), SmtpTlsMode::WrapperTls);
}

#[test]
fn auth_service_log_delivery_mode_does_not_require_smtp_config() {
    let config = service_config_with_delivery_mode(EmailDeliveryMode::Log);

    assert!(resolve_smtp_delivery(&config).expect("log mode").is_none());
}

#[test]
fn auth_service_smtp_delivery_mode_requires_smtp_config() {
    let config = service_config_with_delivery_mode(EmailDeliveryMode::Smtp);

    assert!(resolve_smtp_delivery(&config).is_err());
}
