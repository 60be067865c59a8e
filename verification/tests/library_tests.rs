use dopablocker_backend::account::{
    email_code_start_response, email_code_verify_response, map_create_user_error,
    prepare_new_user, require_created, require_registered, require_user,
};
use dopablocker_backend::auth::{
    classify_credential, credential_from_header, device_token_caller, extract_bearer_token,
    firebase_caller, firebase_issuer, jwks_cache_hit, kid_from_header, method_allowed,
    require_firebase, token_kid, AuthSource, Credential, FirebaseAuthInfo, FirebaseClaims,
};
use dopablocker_backend::blocklist::{
    check_item_deleted, format_blocklist_etag, normalize_domain, validate_blocked_value,
};
use dopablocker_backend::config::{
    parse_cors_origins, smtp_config_from_values, AppConfig, ConfigError, EmailDeliveryMode,
    EnvValues, SmtpConfig,
};
use dopablocker_backend::crypto::{
    constant_time_eq, email_code_hash, email_token_hash, hash_device_token, hmac_sha256_hex,
};
use dopablocker_backend::devices::{
    check_link, check_revocation, check_tamper_recorded, confirm_link_response,
    link_code_response, map_link_code_insert_error, new_parent_device, normalize_device_token,
    prepare_tamper_report, require_parent_device, PendingLink,
};
use dopablocker_backend::email::{
    check_code, check_rebind, check_send_allowed, check_token, normalize_email, prepare_code_issue,
    prepare_code_verification, prepare_token_use, resolve_smtp_delivery, validate_code_shape,
    verification_email_body,
    CodeCheck, PendingCode, TokenCheck, MAX_SENDS_PER_HOUR, RESEND_COOLDOWN_SECS,
};
use dopablocker_backend::errors::{
    bad_request, conflict, forbidden, not_found, service_unavailable, unauthorized, AppError,
};
use dopablocker_backend::hexenc::to_hex_lower;
use dopablocker_backend::models::{BlockMode, BlockedType, Platform, RegisterRequest, User};
use dopablocker_backend::numfmt::{i64_to_decimal, parse_u16, six_digit_chars, u64_to_decimal};
use dopablocker_backend::random::{
    format_numeric_code, generate_numeric_code, generate_verification_token, issue_device_token,
};
use dopablocker_backend::registration::{fallback_display_name, plan_registration, RegistrationPlan};
use dopablocker_backend::text::{ascii_lowercase, chars_of, str_lt, strip_prefix, trim};
use dopablocker_backend::time::iso_at_offset;
use dopablocker_backend::util::{
    item_type_to_str, map_db_error_message, map_register_error_message, map_unique_violation,
    platform_to_str, str_to_item_type, str_to_platform, ServiceError,
};

fn s(cs: Vec<char>) -> String {
    cs.into_iter().collect()
}

fn empty_env() -> EnvValues {
    EnvValues {
        port: None,
        database_path: None,
        sqlcipher_key: None,
        firebase_project_id: None,
        email_code_secret: None,
        email_delivery_mode: None,
        smtp_host: None,
        smtp_username: None,
        smtp_password: None,
        smtp_from: None,
        smtp_port: None,
        cors_allowed_origins: None,
    }
}

fn log_config() -> AppConfig {
    AppConfig {
        port: 3000,
        database_path: "dopablocker.db".into(),
        database_key: "k".into(),
        firebase_project_id: "p".into(),
        email_code_secret: "test-secret".into(),
        email_delivery_mode: EmailDeliveryMode::Log,
        smtp: None,
        cors_allowed_origins: vec![],
    }
}

fn smtp_settings() -> SmtpConfig {
    SmtpConfig {
        host: "smtp.example.com".into(),
        port: 465,
        username: "u".into(),
        password: "p".into(),
        from: "DopaBlocker <no-reply@example.com>".into(),
    }
}

fn user(id: &str) -> User {
    User {
        id: id.into(),
        firebase_uid: "uid".into(),
        email: "a@b.co".into(),
        display_name: "A".into(),
        mode: BlockMode::Personal,
        created_at: "2025-01-01T00:00:00Z".into(),
    }
}

fn claims_with(provider: Option<&str>, verified: Option<bool>) -> FirebaseClaims {
    FirebaseClaims {
        sub: "uid-1".into(),
        email: Some("focus@example.com".into()),
        name: None,
        email_verified: verified,
        firebase: Some(FirebaseAuthInfo { sign_in_provider: provider.map(str::to_string) }),
    }
}

fn register_payload(token: Option<&str>) -> RegisterRequest {
    RegisterRequest {
        email: "focus@example.com".into(),
        display_name: "Focus".into(),
        mode: BlockMode::Parental,
        email_verification_token: token.map(str::to_string),
    }
}

// ---- crypto ----

#[test]
fn device_token_hash_is_sha256_hex() {
    assert_eq!(
        hash_device_token("abc"),
        "ba7816bf8f01cfea414140de5dae2223b00361a396177a9cb410ff61f20015ad"
    );
}

#[test]
fn hmac_matches_rfc4231_vector() {
    assert_eq!(
        hmac_sha256_hex("Jefe", "what do ya want for nothing?"),
        "5bdcc146bf60754e6a042426089575c75a003f089d2739839dec58b964ec3843"
    );
}

#[test]
fn email_hashes_use_their_message_formats() {
    assert_eq!(
        email_code_hash("test-secret", "focus@example.com", "123456"),
        "2499377967911c3298fc9b9e8af2d8c55b5e4a89505384b267fec7c2f4c1ba47"
    );
    assert_eq!(
        email_token_hash("test-secret", "123456"),
        "e859528a7ce17d8b973e13658db346cbfe49c6ff9341901a124195764781e12c"
    );
}

#[test]
fn constant_time_eq_edges() {
    assert!(constant_time_eq("", ""));
    assert!(!constant_time_eq("", "a"));
    assert!(!constant_time_eq("é", "e"));
    assert!(constant_time_eq("é", "é"));
}

// ---- hex, numbers, codes ----

#[test]
fn hex_encoding_is_lowercase_two_digits_per_byte() {
    assert_eq!(s(to_hex_lower(&[0x00, 0xff, 0x1a, 0x09])), "00ff1a09");
    assert_eq!(s(to_hex_lower(&[])), "");
}

#[test]
fn decimal_renderings() {
    assert_eq!(s(u64_to_decimal(0)), "0");
    assert_eq!(s(u64_to_decimal(18446744073709551615)), "18446744073709551615");
    assert_eq!(s(i64_to_decimal(-42)), "-42");
    assert_eq!(s(i64_to_decimal(i64::MIN)), "-9223372036854775808");
    assert_eq!(s(six_digit_chars(42)), "000042");
}

#[test]
fn parse_u16_follows_std() {
    for text in ["0", "587", "65535", "65536", "+25", "", "+", "-1", "12a", " 1"] {
        let cs: Vec<char> = text.chars().collect();
        assert_eq!(parse_u16(&cs), text.parse::<u16>().ok(), "input {text:?}");
    }
}

#[test]
fn numeric_code_wraps_above_a_million() {
    assert_eq!(format_numeric_code(1_234_567), "234567");
    assert_eq!(format_numeric_code(0), "000000");
}

#[test]
fn generated_secrets_have_their_shapes() {
    let code = generate_numeric_code();
    assert_eq!(code.len(), 6);
    assert!(code.bytes().all(|b| b.is_ascii_digit()));
    let token = generate_verification_token();
    assert_eq!(token.len(), 64);
    assert!(token.bytes().all(|b| b.is_ascii_digit() || (b'a'..=b'f').contains(&b)));
    assert_ne!(generate_verification_token(), token);
}

#[test]
fn issued_device_token_is_prefixed_and_hashed() {
    let t = issue_device_token();
    assert_eq!(t.plain.len(), 64);
    assert_eq!(t.bearer, format!("dt_{}", t.plain));
    assert_eq!(t.hash, hash_device_token(&t.plain));
    // The two UUIDs carry the version-4 marker at their 13th hex digit.
    assert_eq!(&t.plain[12..13], "4");
    assert_eq!(&t.plain[44..45], "4");
}

// ---- time ----

#[test]
fn iso_rendering_of_known_instants() {
    assert_eq!(iso_at_offset(1_750_000_000, 0).as_deref(), Some("2025-06-15T15:06:40Z"));
    assert_eq!(iso_at_offset(0, 0).as_deref(), Some("1970-01-01T00:00:00Z"));
    assert_eq!(iso_at_offset(1_750_000_000, 600).as_deref(), Some("2025-06-15T15:16:40Z"));
    assert_eq!(iso_at_offset(i64::MAX, 1), None);
}

// ---- auth ----

#[test]
fn bearer_extraction() {
    assert_eq!(extract_bearer_token(Some("Bearer abc")).unwrap(), "abc");
    assert!(matches!(
        extract_bearer_token(Some("Basic abc")),
        Err(AppError::Unauthorized(m)) if m == "Authorization ausente"
    ));
    assert!(matches!(extract_bearer_token(None), Err(AppError::Unauthorized(_))));
}

#[test]
fn credentials_are_told_apart_by_prefix() {
    assert!(matches!(classify_credential("dt_secret"), Credential::DeviceToken(p) if p == "secret"));
    assert!(matches!(classify_credential("eyJ.x.y"), Credential::FirebaseJwt(t) if t == "eyJ.x.y"));
    assert!(matches!(
        credential_from_header(Some("Bearer dt_abc")),
        Some(Credential::DeviceToken(p)) if p == "abc"
    ));
    assert!(credential_from_header(Some("bearer dt_abc")).is_none());
}

#[test]
fn device_tokens_are_read_only() {
    assert!(method_allowed(AuthSource::DeviceToken, "GET"));
    assert!(method_allowed(AuthSource::DeviceToken, "HEAD"));
    for m in ["POST", "PUT", "DELETE", "PATCH", "get"] {
        assert!(!method_allowed(AuthSource::DeviceToken, m));
        assert!(method_allowed(AuthSource::Firebase, m));
    }
}

#[test]
fn callers_from_lookups() {
    let a = device_token_caller(Some(("u1".into(), "d1".into()))).unwrap();
    assert_eq!(a.user_id, "u1");
    assert_eq!(a.source, AuthSource::DeviceToken);
    assert_eq!(a.device_id.as_deref(), Some("d1"));
    assert!(matches!(device_token_caller(None), Err(AppError::Unauthorized(_))));
    let f = firebase_caller(Some("u2".into())).unwrap();
    assert_eq!(f.source, AuthSource::Firebase);
    assert!(f.device_id.is_none());
    assert!(matches!(firebase_caller(None), Err(AppError::Unauthorized(_))));
    assert!(require_firebase(AuthSource::Firebase, "x").is_ok());
    assert!(matches!(
        require_firebase(AuthSource::DeviceToken, "nope"),
        Err(AppError::Forbidden(m)) if m == "nope"
    ));
}

#[test]
fn issuer_and_cache_rules() {
    assert_eq!(firebase_issuer("proj"), "https://securetoken.google.com/proj");
    assert!(jwks_cache_hit(Some(0), true));
    assert!(jwks_cache_hit(Some(21_599), true));
    assert!(!jwks_cache_hit(Some(21_600), true));
    assert!(!jwks_cache_hit(Some(10), false));
    assert!(!jwks_cache_hit(None, true));
}

#[test]
fn kid_from_decoded_header() {
    assert_eq!(kid_from_header(Ok(Some("k1".into()))).unwrap(), "k1");
    assert!(matches!(kid_from_header(Ok(None)), Err(AppError::Unauthorized(m)) if m == "JWT sem kid"));
    assert!(matches!(
        kid_from_header(Err("bad".into())),
        Err(AppError::Unauthorized(m)) if m == "JWT header inválido: bad"
    ));
}

#[test]
fn token_kid_reads_the_jwt_header() {
    let with_kid = "eyJhbGciOiJSUzI1NiIsImtpZCI6ImFiYyIsInR5cCI6IkpXVCJ9.e30.sig";
    assert_eq!(token_kid(with_kid).unwrap(), "abc");
    let without_kid = "eyJhbGciOiJSUzI1NiIsInR5cCI6IkpXVCJ9.e30.sig";
    assert!(matches!(token_kid(without_kid), Err(AppError::Unauthorized(m)) if m == "JWT sem kid"));
    assert!(matches!(
        token_kid("not-a-jwt"),
        Err(AppError::Unauthorized(m)) if m.starts_with("JWT header inválido: ")
    ));
}

#[test]
fn issued_device_token_authenticates_as_its_device() {
    let t = issue_device_token();
    let header = format!("Bearer {}", t.bearer);
    match credential_from_header(Some(&header)) {
        Some(Credential::DeviceToken(plain)) => {
            assert_eq!(plain, t.plain);
            assert_eq!(hash_device_token(&plain), t.hash);
        }
        other => panic!("unexpected credential {other:?}"),
    }
}

// ---- blocklist ----

#[test]
fn domains_are_normalized() {
    assert_eq!(normalize_domain("http://www.Instagram.COM/path"), "instagram.com");
    assert_eq!(normalize_domain("  X.COM "), "x.com");
    assert_eq!(normalize_domain("x.com"), "x.com");
    assert_eq!(normalize_domain("https://sub.example.org/a/b?c"), "sub.example.org");
    assert_eq!(normalize_domain("www."), "");
}

#[test]
fn blocked_values_are_checked() {
    assert_eq!(validate_blocked_value(BlockedType::Domain, "WWW.Example.com").unwrap(), "example.com");
    assert_eq!(validate_blocked_value(BlockedType::App, " Com.Instagram.Android ").unwrap(), "com.instagram.android");
    assert_eq!(validate_blocked_value(BlockedType::Keyword, "CaSiNo").unwrap(), "casino");
    assert!(matches!(
        validate_blocked_value(BlockedType::Keyword, "   "),
        Err(AppError::BadRequest(m)) if m == "value não pode ser vazio"
    ));
    assert!(matches!(
        validate_blocked_value(BlockedType::Domain, "localhost"),
        Err(AppError::BadRequest(m)) if m == "domínio deve conter pelo menos um ponto (ex: instagram.com)"
    ));
    assert!(validate_blocked_value(BlockedType::Keyword, "localhost").is_ok());
}

#[test]
fn deleting_nothing_is_not_found() {
    assert!(matches!(check_item_deleted(0), Err(AppError::NotFound(m)) if m == "Item não encontrado"));
    assert!(check_item_deleted(1).is_ok());
}

#[test]
fn etag_with_negative_and_large_counts() {
    assert_eq!(format_blocklist_etag(-1, None), "\"-1-\"");
    assert_eq!(format_blocklist_etag(12, Some("t")), "\"12-t\"");
    assert_ne!(format_blocklist_etag(1, Some("2-x")), format_blocklist_etag(12, Some("x")));
}

// ---- devices ----

#[test]
fn tamper_reports_are_checked() {
    let r = prepare_tamper_report("  dt_abc ", " vpn_revoked ").unwrap();
    assert_eq!(r.kind, "vpn_revoked");
    assert_eq!(r.token_hash, hash_device_token("abc"));
    assert!(matches!(
        prepare_tamper_report("dt_abc", "bogus"),
        Err(AppError::BadRequest(m)) if m == "tipo de evento inválido"
    ));
    assert!(check_tamper_recorded(true).is_ok());
    assert!(matches!(check_tamper_recorded(false), Err(AppError::Unauthorized(_))));
}

#[test]
fn reported_token_matches_issued_hash() {
    let t = issue_device_token();
    let body = format!("\t {} \n", t.bearer);
    assert_eq!(normalize_device_token(&body), t.plain);
    assert_eq!(hash_device_token(&normalize_device_token(&body)), t.hash);
    assert_eq!(normalize_device_token(&format!(" {} ", t.plain)), t.plain);
}

#[test]
fn parent_devices_and_link_codes() {
    let d = new_parent_device("d".into(), "u".into(), "PC".into(), Platform::Windows, "t".into());
    assert!(!d.is_child);
    assert_eq!(d.platform, Platform::Windows);
    assert_eq!(require_parent_device(Some("d".into())).unwrap(), "d");
    assert!(matches!(require_parent_device(None), Err(AppError::BadRequest(_))));
    assert!(matches!(
        map_link_code_insert_error("UNIQUE constraint failed: parental_links.link_code".into()),
        AppError::Conflict(m) if m == "Código já em uso — tente novamente"
    ));
    assert!(matches!(
        map_link_code_insert_error("disk I/O error".into()),
        AppError::InternalServerError(m) if m == "disk I/O error"
    ));
    let r = link_code_response("000042".into(), "2025-01-01T00:05:00Z".into());
    assert_eq!(r.code, "000042");
}

#[test]
fn link_confirmation_rules() {
    let link = || PendingLink {
        id: "l".into(),
        parent_device_id: "p".into(),
        expires_at: "2025-01-01T00:05:00Z".into(),
    };
    assert_eq!(check_link(None, "2025-01-01T00:00:00Z").err(), Some(ServiceError::LinkNotFound));
    assert_eq!(
        check_link(Some(link()), "2025-01-01T00:05:01Z").err(),
        Some(ServiceError::LinkExpired)
    );
    let ok = check_link(Some(link()), "2025-01-01T00:05:00Z").unwrap();
    assert_eq!(ok.parent_device_id, "p");
    let t = issue_device_token();
    let bearer = t.bearer.clone();
    let resp = confirm_link_response(t, "child".into(), "parent-user".into(), "p".into());
    assert_eq!(resp.device_token, bearer);
    assert!(resp.device_token.starts_with("dt_"));
    assert_eq!(resp.device_id, "child");
    assert_eq!(resp.user_id, "parent-user");
    assert!(matches!(check_revocation(0), Err(AppError::NotFound(_))));
    assert!(check_revocation(2).is_ok());
}

// ---- email verification ----

#[test]
fn send_limits() {
    let cutoff = "2025-01-01T00:00:00Z";
    assert_eq!(
        check_send_allowed(Some("2025-01-01T00:00:30Z"), cutoff, 0),
        Err(ServiceError::EmailCodeCooldown)
    );
    assert_eq!(check_send_allowed(Some(cutoff), cutoff, 0), Ok(()));
    assert_eq!(
        check_send_allowed(None, cutoff, MAX_SENDS_PER_HOUR),
        Err(ServiceError::EmailCodeRateLimited)
    );
    assert_eq!(check_send_allowed(None, cutoff, MAX_SENDS_PER_HOUR - 1), Ok(()));
}

#[test]
fn smtp_mode_hands_out_the_settings() {
    let mut c = log_config();
    c.email_delivery_mode = EmailDeliveryMode::Smtp;
    c.smtp = Some(smtp_settings());
    let got = resolve_smtp_delivery(&c).unwrap().unwrap();
    assert_eq!(got.host, "smtp.example.com");
    assert_eq!(got.port, 465);
}

#[test]
fn code_issue_in_log_mode() {
    let issue = prepare_code_issue(&log_config(), "  Focus@Example.com ").unwrap();
    assert!(issue.smtp.is_none());
    assert_eq!(issue.email, "focus@example.com");
    assert_eq!(issue.code.len(), 6);
    assert_eq!(issue.code_hash, email_code_hash("test-secret", "focus@example.com", &issue.code));
    // The issued code passes the shape check verification applies.
    assert_eq!(validate_code_shape(&issue.code).unwrap(), issue.code);
    assert!(matches!(
        prepare_code_issue(&log_config(), "nope"),
        Err(AppError::BadRequest(m)) if m == "Email invalido"
    ));
    let mut bad = log_config();
    bad.email_delivery_mode = EmailDeliveryMode::Smtp;
    assert!(matches!(
        prepare_code_issue(&bad, "nope"),
        Err(AppError::ServiceUnavailable(m)) if m == "Envio de email nao configurado no backend"
    ));
}

#[test]
fn code_verification_and_token_use_agree() {
    let v = prepare_code_verification("s3", "A@B.co", " 123456 ").unwrap();
    assert_eq!(v.email, "a@b.co");
    assert_eq!(v.submitted_hash, email_code_hash("s3", "a@b.co", "123456"));
    assert_eq!(v.token.len(), 64);
    let u = prepare_token_use("s3", "a@b.co", &format!("  {}  ", v.token)).unwrap();
    assert_eq!(u.token_hash, v.token_hash);
    assert!(matches!(
        prepare_code_verification("s3", "a@b.co", "12345"),
        Err(AppError::BadRequest(m)) if m == "Codigo deve ter 6 digitos"
    ));
    assert!(matches!(
        prepare_token_use("s3", "a@b.co", "   "),
        Err(AppError::BadRequest(m)) if m == "Verificacao de email ausente ou invalida"
    ));
    assert!(matches!(prepare_token_use("s3", "ab.co", "t"), Err(AppError::BadRequest(m)) if m == "Email invalido"));
}

#[test]
fn email_shapes() {
    assert!(normalize_email("a@b.c").is_ok());
    assert!(normalize_email("a@@b.c").is_err());
    assert!(normalize_email("a@b@c.d").is_err());
    assert!(normalize_email("@b.c").is_err());
    assert!(normalize_email("a@.b.c").is_err());
    assert!(normalize_email("a@b.c.").is_err());
    assert!(normalize_email("a@bc").is_err());
    let long = format!("{}@example.com", "a".repeat(243));
    assert_eq!(long.len(), 255);
    assert!(normalize_email(&long).is_err());
    assert!(normalize_email(&long[1..]).is_ok());
}

#[test]
fn code_check_outcomes() {
    let rec = |attempts: i64| PendingCode {
        id: "r".into(),
        code_hash: "h".into(),
        attempts,
        expires_at: "2025-01-01T00:10:00Z".into(),
    };
    let now = "2025-01-01T00:00:00Z";
    let c = check_code(None, now, "h");
    assert!(matches!(c, CodeCheck::NotFound));
    assert_eq!(c.error(), Some(ServiceError::EmailCodeNotFound));
    let c = check_code(Some(rec(0)), "2025-01-01T00:10:01Z", "h");
    assert!(matches!(&c, CodeCheck::Expired(id) if id == "r"));
    assert_eq!(c.error(), Some(ServiceError::EmailCodeExpired));
    let c = check_code(Some(rec(5)), now, "h");
    assert!(matches!(c, CodeCheck::TooManyAttempts));
    assert_eq!(c.error(), Some(ServiceError::EmailCodeTooManyAttempts));
    let c = check_code(Some(rec(4)), now, "x");
    assert!(matches!(&c, CodeCheck::Mismatch(id) if id == "r"));
    assert_eq!(c.error(), Some(ServiceError::EmailCodeInvalid));
    let c = check_code(Some(rec(4)), now, "h");
    assert!(matches!(&c, CodeCheck::Verified(id) if id == "r"));
    assert_eq!(c.error(), None);
}

#[test]
fn token_check_outcomes() {
    let now = "2025-01-01T00:00:00Z";
    let t = check_token(None, now);
    assert_eq!(t.error(), Some(ServiceError::EmailTokenInvalid));
    let t = check_token(Some(("v".into(), "2024-12-31T23:59:59Z".into())), now);
    assert!(matches!(&t, TokenCheck::Expired(id) if id == "v"));
    assert_eq!(t.error(), Some(ServiceError::EmailTokenExpired));
    let t = check_token(Some(("v".into(), now.into())), now);
    assert!(matches!(&t, TokenCheck::Valid(id) if id == "v"));
    assert_eq!(t.error(), None);
    assert_eq!(check_rebind(0), Err(ServiceError::EmailTokenInvalid));
    assert_eq!(check_rebind(1), Ok(()));
}

#[test]
fn verification_email_body_carries_the_code() {
    assert_eq!(
        verification_email_body("042042"),
        "Seu codigo DopaBlocker e 042042.\n\nEle expira em 10 minutos. Se voce nao pediu este cadastro, ignore este email."
    );
}

// ---- errors and their translations ----

#[test]
fn every_error_variant_has_its_status() {
    let cases = [
        (AppError::InternalServerError("a".into()), 500),
        (bad_request("a"), 400),
        (unauthorized("a"), 401),
        (forbidden("a"), 403),
        (not_found("a"), 404),
        (conflict("a"), 409),
        (service_unavailable("a"), 503),
    ];
    for (e, status) in cases {
        assert_eq!(e.status_code(), status);
        assert_eq!(e.into_parts(), (status, "a".to_string()));
    }
}

#[test]
fn domain_errors_translate_to_bad_requests() {
    let all = [
        (ServiceError::LinkNotFound, "LINK_NOT_FOUND", "Código inválido ou já utilizado"),
        (ServiceError::LinkExpired, "LINK_EXPIRED", "Código expirado"),
        (ServiceError::EmailCodeCooldown, "EMAIL_CODE_COOLDOWN", "Aguarde antes de pedir um novo codigo"),
        (ServiceError::EmailCodeRateLimited, "EMAIL_CODE_RATE_LIMITED", "Limite de codigos por hora atingido"),
        (ServiceError::EmailCodeNotFound, "EMAIL_CODE_NOT_FOUND", "Codigo invalido ou expirado"),
        (ServiceError::EmailCodeExpired, "EMAIL_CODE_EXPIRED", "Codigo expirado"),
        (ServiceError::EmailCodeTooManyAttempts, "EMAIL_CODE_TOO_MANY_ATTEMPTS", "Muitas tentativas. Peca um novo codigo"),
        (ServiceError::EmailCodeInvalid, "EMAIL_CODE_INVALID", "Codigo invalido"),
        (ServiceError::EmailTokenInvalid, "EMAIL_TOKEN_INVALID", "Verificacao de email ausente ou invalida"),
        (ServiceError::EmailTokenExpired, "EMAIL_TOKEN_EXPIRED", "Verificacao de email expirada"),
    ];
    for (e, tag, msg) in all {
        assert_eq!(e.tag(), tag);
        assert_eq!(ServiceError::from_message(&format!("Other(\"{tag}\")")), Some(e));
        assert!(matches!(e.to_app_error(), AppError::BadRequest(m) if m == msg));
        assert!(matches!(map_db_error_message(tag.to_string()), AppError::BadRequest(m) if m == msg));
    }
}

#[test]
fn database_messages_translate() {
    assert!(matches!(
        map_db_error_message("no such table".into()),
        AppError::InternalServerError(m) if m == "no such table"
    ));
    assert!(matches!(
        map_register_error_message("UNIQUE constraint failed: users.firebase_uid".into()),
        AppError::Conflict(m) if m == "Falha ao criar usuario: UNIQUE constraint failed: users.firebase_uid"
    ));
    assert!(matches!(
        map_register_error_message("EMAIL_TOKEN_INVALID UNIQUE".into()),
        AppError::BadRequest(m) if m == "Verificacao de email ausente ou invalida"
    ));
    assert!(matches!(
        map_unique_violation("UNIQUE constraint failed".into(), "Item já existe na blocklist"),
        AppError::Conflict(m) if m == "Item já existe na blocklist"
    ));
}

#[test]
fn legacy_enum_aliases() {
    assert_eq!(str_to_item_type(item_type_to_str(&BlockedType::Keyword)), BlockedType::Keyword);
    assert_eq!(str_to_item_type("unknown"), BlockedType::Domain);
    assert_eq!(str_to_platform(platform_to_str(&Platform::Android)), Platform::Android);
    assert_eq!(str_to_platform("ios"), Platform::Windows);
}

// ---- configuration ----

#[test]
fn configuration_defaults() {
    let c = AppConfig::from_env(&empty_env()).unwrap();
    assert_eq!(c.port, 3000);
    assert_eq!(c.database_path, "dopablocker.db");
    assert_eq!(c.database_key, "dev-only-unsafe-key");
    assert_eq!(c.firebase_project_id, "dopablocker-dev");
    assert_eq!(c.email_code_secret, "dev-only-unsafe-email-code-secret");
    assert_eq!(c.email_delivery_mode, EmailDeliveryMode::Smtp);
    assert!(c.smtp.is_none());
    assert_eq!(c.cors_allowed_origins, vec!["http://localhost:5173".to_string()]);
}

#[test]
fn configuration_errors() {
    let mut env = empty_env();
    env.port = Some("70000".into());
    assert!(matches!(AppConfig::from_env(&env), Err(ConfigError::InvalidPort)));
    let mut env = empty_env();
    env.email_delivery_mode = Some(" Outlook ".into());
    assert!(matches!(
        AppConfig::from_env(&env),
        Err(ConfigError::InvalidDeliveryMode(m)) if m == "modo de entrega de email invalido: outlook"
    ));
}

#[test]
fn configuration_from_full_environment() {
    let mut env = empty_env();
    env.port = Some("8080".into());
    env.email_delivery_mode = Some("LOG".into());
    env.smtp_host = Some(" smtp.example.com ".into());
    env.smtp_username = Some("user".into());
    env.smtp_password = Some(" pw ".into());
    env.smtp_from = Some("from@example.com".into());
    env.smtp_port = Some("465".into());
    env.cors_allowed_origins = Some(" https://a.example , ,https://b.example".into());
    let c = AppConfig::from_env(&env).unwrap();
    assert_eq!(c.port, 8080);
    assert_eq!(c.email_delivery_mode, EmailDeliveryMode::Log);
    let smtp = c.smtp.unwrap();
    assert_eq!(smtp.host, "smtp.example.com");
    assert_eq!(smtp.password, " pw ");
    assert_eq!(smtp.port, 465);
    assert_eq!(
        c.cors_allowed_origins,
        vec!["https://a.example".to_string(), "https://b.example".to_string()]
    );
}

#[test]
fn smtp_settings_need_every_value() {
    assert!(smtp_config_from_values(Some("h"), Some("u"), Some("p"), None, None).is_none());
    assert!(smtp_config_from_values(Some(" "), Some("u"), Some("p"), Some("f"), None).is_none());
    let c = smtp_config_from_values(Some("h"), Some("u"), Some("p"), Some("f"), Some("x")).unwrap();
    assert_eq!(c.port, 587);
    assert_eq!(parse_cors_origins(Some("")), Vec::<String>::new());
}

// ---- registration and accounts ----

#[test]
fn registration_paths() {
    let pw = claims_with(Some("password"), Some(false));
    let google = claims_with(Some("google.com"), Some(true));
    let unverified = claims_with(Some("google.com"), None);
    let with_token = register_payload(Some(" tok "));
    let without = register_payload(None);
    let e = || "focus@example.com".to_string();
    let n = || "Focus".to_string();

    assert!(matches!(
        plan_registration(&pw, &with_token, e(), n(), true),
        Ok(RegistrationPlan::Reclaim { token, .. }) if token == "tok"
    ));
    assert!(matches!(
        plan_registration(&pw, &with_token, e(), n(), false),
        Ok(RegistrationPlan::CreateVerified { token, display_name, .. }) if token == "tok" && display_name == "Focus"
    ));
    assert!(matches!(
        plan_registration(&pw, &without, e(), n(), false),
        Err(AppError::BadRequest(m)) if m == "Verifique seu email antes de concluir o cadastro"
    ));
    assert!(matches!(
        plan_registration(&google, &without, e(), n(), true),
        Ok(RegistrationPlan::Rebind { email }) if email == "focus@example.com"
    ));
    assert!(matches!(
        plan_registration(&google, &without, e(), n(), false),
        Ok(RegistrationPlan::Create { .. })
    ));
    assert!(matches!(
        plan_registration(&unverified, &with_token, e(), n(), false),
        Err(AppError::BadRequest(m)) if m == "Email do provedor de login nao esta verificado"
    ));
}

#[test]
fn fallback_names() {
    assert_eq!(fallback_display_name("@example.com"), "Usuario");
    assert_eq!(fallback_display_name(" joe @x.com"), "joe");
    assert_eq!(fallback_display_name("plain"), "plain");
}

#[test]
fn new_accounts_and_lookups() {
    let u = prepare_new_user(" A@B.Co ", "  Ann  ", BlockMode::Parental).unwrap();
    assert_eq!(u.email, "a@b.co");
    assert_eq!(u.display_name, "Ann");
    assert_eq!(u.mode, "parental");
    assert!(matches!(prepare_new_user("x", "A", BlockMode::Personal), Err(AppError::BadRequest(_))));
    assert!(matches!(
        map_create_user_error("boom"),
        AppError::Conflict(m) if m == "Falha ao criar usuário: boom"
    ));
    assert_eq!(require_user(Some(user("1"))).unwrap().id, "1");
    assert!(matches!(require_user(None), Err(AppError::NotFound(m)) if m == "Usuário não encontrado"));
    assert!(matches!(require_registered(None), Err(AppError::NotFound(_))));
    assert!(matches!(require_created(None), Err(AppError::InternalServerError(_))));
    let r = email_code_start_response("t".into());
    assert_eq!(r.resend_after_seconds, RESEND_COOLDOWN_SECS);
    assert_eq!(r.resend_after_seconds, 60);
    assert_eq!(email_code_verify_response("tok".into()).email_verification_token, "tok");
}

// ---- text helpers ----

#[test]
fn text_helpers() {
    assert_eq!(trim("\u{3000} a b \n"), "a b");
    assert_eq!(s(ascii_lowercase(&chars_of("AbÇ"))), "abÇ");
    assert!(str_lt("2025-01-01T00:00:00Z", "2025-01-01T00:00:01Z"));
    assert!(!str_lt("b", "a"));
    assert!(str_lt("", "a"));
    assert_eq!(strip_prefix("dt_x", "dt_").as_deref(), Some("x"));
    assert_eq!(strip_prefix("x", "dt_"), None);
}
