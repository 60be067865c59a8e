//! Email verification before sign-up: address normalization, code and token
//! generation, delivery choice, and the rules that decide each step of the
//! start / verify / consume flow.
use vstd::prelude::*;
use vstd::utf8::encode_utf8;

use crate::config::{AppConfig, EmailDeliveryMode, SmtpConfig};
use crate::crypto::{
    constant_time_eq, email_code_hash, email_code_message, email_token_hash, email_token_message,
    hmac_hex,
};
use crate::errors::{AppError, bad_request};
use crate::random::{generate_numeric_code, generate_verification_token, is_lower_hex_of_len,
    is_six_digit_code};
use crate::text::{
    all_ascii, ascii_lower_seq, lemma_trimmed_keeps_ascii, chars_of, contains_char, find_char, is_ws, lex_lt, slice_chars, str_lt, string_of, to_lowercase,
    trim, trim_chars, trimmed, unicode_lowercase,
};
use crate::util::ServiceError;

verus! {

/// Lifetime of an emailed code, in seconds.
pub const CODE_TTL_SECS: i64 = 600;
/// Lifetime of the verification token that a correct code earns, in seconds.
pub const TOKEN_TTL_SECS: i64 = 900;
/// Minimum wait between two codes for the same address, in seconds.
pub const RESEND_COOLDOWN_SECS: i64 = 60;
/// Wrong guesses allowed per code.
pub const MAX_ATTEMPTS: i64 = 5;
/// Codes that may be sent to one address per hour.
pub const MAX_SENDS_PER_HOUR: i64 = 5;
/// The window, in seconds, over which `MAX_SENDS_PER_HOUR` counts sends.
pub const SEND_WINDOW_SECS: i64 = 3600;

// ---------------------------------------------------------------------------
// Delivery
// ---------------------------------------------------------------------------
/// TLS flavour of the SMTP connection.
#[derive(Debug, Clone, Copy, PartialEq, Eq, Structural)]
pub enum SmtpTlsMode {
    StartTls,
    WrapperTls,
}

/// Port 465 speaks TLS from the first byte; every other port (587 in
/// particular) upgrades with STARTTLS.
pub fn smtp_tls_mode_for_port(port: u16) -> (r: SmtpTlsMode)
    ensures
        r == (if port == 465 {
            SmtpTlsMode::WrapperTls
        } else {
            SmtpTlsMode::StartTls
        }),
{
    if port == 465 {
        SmtpTlsMode::WrapperTls
    } else {
        SmtpTlsMode::StartTls
    }
}

/// A copy of SMTP settings.
pub fn copy_smtp(c: &SmtpConfig) -> (r: SmtpConfig)
    ensures
        r == *c,
{
    SmtpConfig {
        host: c.host.clone(),
        port: c.port,
        username: c.username.clone(),
        password: c.password.clone(),
        from: c.from.clone(),
    }
}

/// Chooses how codes are delivered: in log mode nothing is sent
/// (`Ok(None)`); in SMTP mode the SMTP settings are required, and their
/// absence is a 503.
pub fn resolve_smtp_delivery(config: &AppConfig) -> (r: Result<Option<SmtpConfig>, AppError>)
    ensures
        config.email_delivery_mode == EmailDeliveryMode::Log ==> r == Ok::<
            Option<SmtpConfig>,
            AppError,
        >(None),
        config.email_delivery_mode == EmailDeliveryMode::Smtp && config.smtp is Some ==> r == Ok::<
            Option<SmtpConfig>,
            AppError,
        >(config.smtp),
        config.email_delivery_mode == EmailDeliveryMode::Smtp && config.smtp is None ==> (r matches Err(
            AppError::ServiceUnavailable(m),
        ) && m@ == "Envio de email nao configurado no backend"@),
{
    match config.email_delivery_mode {
        EmailDeliveryMode::Smtp => match &config.smtp {
            Some(c) => Ok(Some(copy_smtp(c))),
            None => Err(
                AppError::ServiceUnavailable(
                    String::from_str("Envio de email nao configurado no backend"),
                ),
            ),
        },
        EmailDeliveryMode::Log => Ok(None),
    }
}

/// Subject of the verification email.
pub const VERIFICATION_EMAIL_SUBJECT: &'static str = "Seu codigo DopaBlocker";

/// Body of the verification email carrying `code`.
pub fn verification_email_body(code: &str) -> (r: String)
    ensures
        r@ == "Seu codigo DopaBlocker e "@ + code@
            + ".\n\nEle expira em 10 minutos. Se voce nao pediu este cadastro, ignore este email."@,
{
    let mut body = String::from_str("Seu codigo DopaBlocker e ");
    body.append(code);
    body.append(
        ".\n\nEle expira em 10 minutos. Se voce nao pediu este cadastro, ignore este email.",
    );
    body
}

// ---------------------------------------------------------------------------
// Email addresses
// ---------------------------------------------------------------------------
/// `e` has exactly one `@`, at `i`, with a non-empty local part before it and
/// a domain after it that has a dot, but neither starts nor ends with one.
pub open spec fn email_split_ok(e: Seq<char>, i: int) -> bool {
    &&& 0 <= i < e.len()
    &&& e[i] == '@'
    &&& !e.take(i).contains('@')
    &&& !e.skip(i + 1).contains('@')
    &&& i > 0
    &&& e.len() > i + 1
    &&& e.skip(i + 1)[0] != '.'
    &&& e.last() != '.'
    &&& e.skip(i + 1).contains('.')
}

/// An acceptable normalized address: at most 254 bytes of UTF-8 and the
/// shape `local@domain.tld`.
pub open spec fn valid_email(e: Seq<char>) -> bool {
    &&& encode_utf8(e).len() <= 254
    &&& exists|i: int| email_split_ok(e, i)
}

/// The normalized form of an address: trimmed, then lowercased.
pub open spec fn normalized_email(input: Seq<char>) -> Seq<char> {
    unicode_lowercase(trimmed(input))
}

/// Normalizes an address (trim + lowercase) and checks its shape; an
/// address that fails the check is a 400 `Email invalido`.
pub fn normalize_email(input: &str) -> (r: Result<String, AppError>)
    ensures
        valid_email(normalized_email(input@)) ==> (r matches Ok(e) && e@ == normalized_email(
            input@,
        )),
        !valid_email(normalized_email(input@)) ==> (r matches Err(AppError::BadRequest(m)) && m@
            == "Email invalido"@),
        all_ascii(input@) ==> normalized_email(input@) == ascii_lower_seq(trimmed(input@)),
{
    let t = trim(input);
    let email = to_lowercase(t.as_str());
    assert(all_ascii(input@) ==> all_ascii(t@)) by {
        if all_ascii(input@) {
            lemma_trimmed_keeps_ascii(input@);
        }
    }
    let e = chars_of(email.as_str());
    let ghost es = e@;
    let byte_len = email.as_str().as_bytes().len();
    let at = find_char(e.as_slice(), '@');
    let ok: bool = match at {
        None => {
            assert forall|i: int| !email_split_ok(es, i) by {
                if email_split_ok(es, i) {
                    assert(es.contains('@'));
                }
            }
            false
        },
        Some(i) => {
            let local = slice_chars(e.as_slice(), 0, i);
            let domain = slice_chars(e.as_slice(), i + 1, e.len());
            assert(local@ =~= es.take(i as int));
            assert(domain@ =~= es.skip(i + 1));
            let shape_ok = !contains_char(domain.as_slice(), '@') && i > 0 && domain.len() > 0
                && domain[0] != '.' && domain[domain.len() - 1] != '.' && contains_char(
                domain.as_slice(),
                '.',
            );
            proof {
                if shape_ok {
                    assert(es.last() == domain@.last());
                    assert(email_split_ok(es, i as int));
                } else {
                    assert forall|j: int| !email_split_ok(es, j) by {
                        if email_split_ok(es, j) {
                            if j < i {
                                assert(es.take(i as int)[j] == '@');
                            } else if j > i {
                                assert(es.take(j)[i as int] == '@');
                            } else {
                                assert(es.last() == domain@.last());
                            }
                        }
                    }
                }
            }
            shape_ok
        },
    };
    if byte_len > 254 || !ok {
        Err(bad_request("Email invalido"))
    } else {
        Ok(email)
    }
}

// ---------------------------------------------------------------------------
// Codes
// ---------------------------------------------------------------------------
/// Checks a submitted code: after trimming it must be exactly six ASCII
/// digits; otherwise 400 `Codigo deve ter 6 digitos`.
pub fn validate_code_shape(code: &str) -> (r: Result<String, AppError>)
    ensures
        is_six_digit_code(trimmed(code@)) ==> (r matches Ok(c) && c@ == trimmed(code@)),
        !is_six_digit_code(trimmed(code@)) ==> (r matches Err(AppError::BadRequest(m)) && m@
            == "Codigo deve ter 6 digitos"@),
{
    let cs = chars_of(code);
    let t = trim_chars(cs.as_slice());
    if t.len() != 6 {
        return Err(bad_request("Codigo deve ter 6 digitos"));
    }
    let mut i: usize = 0;
    while i < 6
        invariant
            t@.len() == 6,
            t@ == trimmed(code@),
            0 <= i <= 6,
            forall|j: int| 0 <= j < i ==> '0' <= #[trigger] t@[j] <= '9',
        decreases 6 - i,
    {
        if !('0' <= t[i] && t[i] <= '9') {
            assert(!('0' <= t@[i as int] <= '9'));
            assert(!is_six_digit_code(t@));
            return Err(bad_request("Codigo deve ter 6 digitos"));
        }
        i += 1;
    }
    Ok(string_of(t.as_slice()))
}

// ---------------------------------------------------------------------------
// Start: issuing a code
// ---------------------------------------------------------------------------
/// What the start step produces before touching the database.
pub struct CodeIssue {
    /// Where to send the code (`None`: log it instead).
    pub smtp: Option<SmtpConfig>,
    /// The normalized address.
    pub email: String,
    /// The fresh code, shown to the user.
    pub code: String,
    /// What the database keeps instead of the code.
    pub code_hash: String,
}

/// Prepares a new code for `email`: resolves the delivery channel first
/// (so a misconfigured backend answers 503 whatever the address), then
/// normalizes the address, then draws a code and computes its keyed hash.
pub fn prepare_code_issue(config: &AppConfig, email: &str) -> (r: Result<CodeIssue, AppError>)
    ensures
        (config.email_delivery_mode == EmailDeliveryMode::Smtp && config.smtp is None) ==> (r matches Err(
            AppError::ServiceUnavailable(m),
        ) && m@ == "Envio de email nao configurado no backend"@),
        !(config.email_delivery_mode == EmailDeliveryMode::Smtp && config.smtp is None) && !valid_email(
            normalized_email(email@),
        ) ==> (r matches Err(AppError::BadRequest(m)) && m@ == "Email invalido"@),
        !(config.email_delivery_mode == EmailDeliveryMode::Smtp && config.smtp is None) && valid_email(
            normalized_email(email@),
        ) ==> r is Ok,
        r matches Ok(issue) ==> {
            &&& issue.smtp == (if config.email_delivery_mode == EmailDeliveryMode::Smtp {
                config.smtp
            } else {
                None
            })
            &&& issue.email@ == normalized_email(email@)
            &&& is_six_digit_code(issue.code@)
            &&& issue.code_hash@ == hmac_hex(
                config.email_code_secret@,
                email_code_message(issue.email@, issue.code@),
            )
        },
        r is Ok && all_ascii(email@) ==> normalized_email(email@) == ascii_lower_seq(trimmed(email@)),
{
    let smtp = match resolve_smtp_delivery(config) {
        Ok(s) => s,
        Err(e) => {
            return Err(e);
        },
    };
    let email = match normalize_email(email) {
        Ok(e) => e,
        Err(e) => {
            return Err(e);
        },
    };
    let code = generate_numeric_code();
    let code_hash = email_code_hash(config.email_code_secret.as_str(), email.as_str(), code.as_str());
    Ok(CodeIssue { smtp, email, code, code_hash })
}

/// Whether a new code may be sent: refused while the last one is younger
/// than the cooldown (`latest_sent_at` after `cooldown_cutoff`), then
/// refused once `MAX_SENDS_PER_HOUR` codes went out in the last hour.
pub fn check_send_allowed(
    latest_sent_at: Option<&str>,
    cooldown_cutoff: &str,
    recent_sends: i64,
) -> (r: Result<(), ServiceError>)
    ensures
        (latest_sent_at matches Some(s) && lex_lt(cooldown_cutoff@, s@)) ==> r == Err::<
            (),
            ServiceError,
        >(ServiceError::EmailCodeCooldown),
        !(latest_sent_at matches Some(s) && lex_lt(cooldown_cutoff@, s@)) && recent_sends
            >= MAX_SENDS_PER_HOUR ==> r == Err::<(), ServiceError>(
            ServiceError::EmailCodeRateLimited,
        ),
        !(latest_sent_at matches Some(s) && lex_lt(cooldown_cutoff@, s@)) && recent_sends
            < MAX_SENDS_PER_HOUR ==> r == Ok::<(), ServiceError>(()),
{
    match latest_sent_at {
        Some(sent_at) => {
            if str_lt(cooldown_cutoff, sent_at) {
                return Err(ServiceError::EmailCodeCooldown);
            }
        },
        None => {},
    }
    if recent_sends >= MAX_SENDS_PER_HOUR {
        return Err(ServiceError::EmailCodeRateLimited);
    }
    Ok(())
}

// ---------------------------------------------------------------------------
// Verify: checking a code
// ---------------------------------------------------------------------------
/// What verifying a submitted code needs before touching the database.
pub struct CodeVerification {
    /// The normalized address.
    pub email: String,
    /// The keyed hash of the submitted code, compared with the stored one.
    pub submitted_hash: String,
    /// The token handed back on success (the proof of ownership).
    pub token: String,
    /// What the database keeps instead of the token.
    pub token_hash: String,
}

/// Prepares the check of `code` for `email`: normalizes the address (400
/// when invalid), checks the code's shape (400), hashes it, and draws the
/// token that a correct code earns.
pub fn prepare_code_verification(secret: &str, email: &str, code: &str) -> (r: Result<
    CodeVerification,
    AppError,
>)
    ensures
        !valid_email(normalized_email(email@)) ==> (r matches Err(AppError::BadRequest(m)) && m@
            == "Email invalido"@),
        valid_email(normalized_email(email@)) && !is_six_digit_code(trimmed(code@)) ==> (r matches Err(
            AppError::BadRequest(m),
        ) && m@ == "Codigo deve ter 6 digitos"@),
        valid_email(normalized_email(email@)) && is_six_digit_code(trimmed(code@)) ==> r is Ok,
        r matches Ok(v) ==> {
            &&& v.email@ == normalized_email(email@)
            &&& v.submitted_hash@ == hmac_hex(secret@, email_code_message(v.email@, trimmed(code@)))
            &&& is_lower_hex_of_len(v.token@, 64)
            &&& v.token_hash@ == hmac_hex(secret@, email_token_message(v.token@))
        },
        all_ascii(email@) ==> normalized_email(email@) == ascii_lower_seq(trimmed(email@)),
{
    let email = match normalize_email(email) {
        Ok(e) => e,
        Err(e) => {
            return Err(e);
        },
    };
    let code = match validate_code_shape(code) {
        Ok(c) => c,
        Err(e) => {
            return Err(e);
        },
    };
    let submitted_hash = email_code_hash(secret, email.as_str(), code.as_str());
    let token = generate_verification_token();
    let token_hash = email_token_hash(secret, token.as_str());
    Ok(CodeVerification { email, submitted_hash, token, token_hash })
}

/// The pending code record of an address, as stored.
pub struct PendingCode {
    pub id: String,
    pub code_hash: String,
    pub attempts: i64,
    pub expires_at: String,
}

/// The outcome of checking a submitted code against the latest pending one.
#[derive(Debug, Clone)]
pub enum CodeCheck {
    /// No pending code for the address.
    NotFound,
    /// The code expired; the record `id` must be marked expired.
    Expired(String),
    /// The record used up its attempts.
    TooManyAttempts,
    /// Wrong code; the record `id` must count one more attempt.
    Mismatch(String),
    /// Correct code; the record `id` becomes verified.
    Verified(String),
}

/// Decides a code check, in order: no record, expired (`expires_at` before
/// `now`), attempts used up, wrong hash, success.
pub fn check_code(record: Option<PendingCode>, now: &str, submitted_hash: &str) -> (r: CodeCheck)
    ensures
        match record {
            None => r is NotFound,
            Some(p) => if lex_lt(p.expires_at@, now@) {
                r matches CodeCheck::Expired(id) && id == p.id
            } else if p.attempts >= MAX_ATTEMPTS {
                r is TooManyAttempts
            } else if p.code_hash@ != submitted_hash@ {
                r matches CodeCheck::Mismatch(id) && id == p.id
            } else {
                r matches CodeCheck::Verified(id) && id == p.id
            },
        },
{
    match record {
        None => CodeCheck::NotFound,
        Some(p) => {
            if str_lt(p.expires_at.as_str(), now) {
                CodeCheck::Expired(p.id)
            } else if p.attempts >= MAX_ATTEMPTS {
                CodeCheck::TooManyAttempts
            } else if !constant_time_eq(p.code_hash.as_str(), submitted_hash) {
                CodeCheck::Mismatch(p.id)
            } else {
                CodeCheck::Verified(p.id)
            }
        },
    }
}

impl CodeCheck {
    /// The domain error a failed check answers with (`None` on success).
    pub fn error(&self) -> (r: Option<ServiceError>)
        ensures
            r == match *self {
                CodeCheck::NotFound => Some(ServiceError::EmailCodeNotFound),
                CodeCheck::Expired(_) => Some(ServiceError::EmailCodeExpired),
                CodeCheck::TooManyAttempts => Some(ServiceError::EmailCodeTooManyAttempts),
                CodeCheck::Mismatch(_) => Some(ServiceError::EmailCodeInvalid),
                CodeCheck::Verified(_) => None,
            },
    {
        match self {
            CodeCheck::NotFound => Some(ServiceError::EmailCodeNotFound),
            CodeCheck::Expired(_) => Some(ServiceError::EmailCodeExpired),
            CodeCheck::TooManyAttempts => Some(ServiceError::EmailCodeTooManyAttempts),
            CodeCheck::Mismatch(_) => Some(ServiceError::EmailCodeInvalid),
            CodeCheck::Verified(_) => None,
        }
    }
}

// ---------------------------------------------------------------------------
// Consume: spending a verification token
// ---------------------------------------------------------------------------
/// What spending a verification token needs before touching the database.
pub struct TokenUse {
    /// The normalized address.
    pub email: String,
    /// The keyed hash of the trimmed token, looked up among verified records.
    pub token_hash: String,
}

/// Prepares the use of a verification token for `email`: normalizes the
/// address (400 when invalid), refuses a blank token (400 `Verificacao de
/// email ausente ou invalida`), and hashes the trimmed token.
pub fn prepare_token_use(secret: &str, email: &str, token: &str) -> (r: Result<TokenUse, AppError>)
    ensures
        !valid_email(normalized_email(email@)) ==> (r matches Err(AppError::BadRequest(m)) && m@
            == "Email invalido"@),
        valid_email(normalized_email(email@)) && trimmed(token@).len() == 0 ==> (r matches Err(
            AppError::BadRequest(m),
        ) && m@ == "Verificacao de email ausente ou invalida"@),
        valid_email(normalized_email(email@)) && trimmed(token@).len() > 0 ==> r is Ok,
        r matches Ok(u) ==> {
            &&& u.email@ == normalized_email(email@)
            &&& u.token_hash@ == hmac_hex(secret@, email_token_message(trimmed(token@)))
        },
        all_ascii(email@) ==> normalized_email(email@) == ascii_lower_seq(trimmed(email@)),
{
    let email = match normalize_email(email) {
        Ok(e) => e,
        Err(e) => {
            return Err(e);
        },
    };
    let t = trim(token);
    if t.as_str().unicode_len() == 0 {
        return Err(bad_request("Verificacao de email ausente ou invalida"));
    }
    let token_hash = email_token_hash(secret, t.as_str());
    Ok(TokenUse { email, token_hash })
}

/// The outcome of looking up a verified, unconsumed token.
#[derive(Debug, Clone)]
pub enum TokenCheck {
    /// No such token for the address.
    Invalid,
    /// The token expired; the record `id` must be marked expired.
    Expired(String),
    /// The token is good; the record `id` becomes consumed.
    Valid(String),
}

/// Decides a token lookup: absent is invalid; `token_expires_at` before
/// `now` is expired; otherwise valid.
pub fn check_token(found: Option<(String, String)>, now: &str) -> (r: TokenCheck)
    ensures
        match found {
            None => r is Invalid,
            Some((id, expires_at)) => if lex_lt(expires_at@, now@) {
                r matches TokenCheck::Expired(x) && x == id
            } else {
                r matches TokenCheck::Valid(x) && x == id
            },
        },
{
    match found {
        None => TokenCheck::Invalid,
        Some((id, expires_at)) => {
            if str_lt(expires_at.as_str(), now) {
                TokenCheck::Expired(id)
            } else {
                TokenCheck::Valid(id)
            }
        },
    }
}

impl TokenCheck {
    /// The domain error a failed lookup answers with (`None` when valid).
    pub fn error(&self) -> (r: Option<ServiceError>)
        ensures
            r == match *self {
                TokenCheck::Invalid => Some(ServiceError::EmailTokenInvalid),
                TokenCheck::Expired(_) => Some(ServiceError::EmailTokenExpired),
                TokenCheck::Valid(_) => None,
            },
    {
        match self {
            TokenCheck::Invalid => Some(ServiceError::EmailTokenInvalid),
            TokenCheck::Expired(_) => Some(ServiceError::EmailTokenExpired),
            TokenCheck::Valid(_) => None,
        }
    }
}

/// Rebinding an account to a new Firebase identity: when no row was
/// updated (the account vanished meanwhile), the token is treated as
/// invalid so that it is not consumed.
pub fn check_rebind(updated_rows: usize) -> (r: Result<(), ServiceError>)
    ensures
        updated_rows == 0 ==> r == Err::<(), ServiceError>(ServiceError::EmailTokenInvalid),
        updated_rows > 0 ==> r == Ok::<(), ServiceError>(()),
{
    if updated_rows == 0 {
        Err(ServiceError::EmailTokenInvalid)
    } else {
        Ok(())
    }
}

// ---------------------------------------------------------------------------
// Laws
// ---------------------------------------------------------------------------
/// A string of visible characters is left as is by trimming.
proof fn lemma_trim_keeps_visible(s: Seq<char>)
    requires
        forall|i: int| 0 <= i < s.len() ==> !is_ws(#[trigger] s[i]),
    ensures
        trimmed(s) == s,
{
    if s.len() > 0 {
        crate::text::lemma_trimmed_padded(seq![], s, seq![]);
        assert(seq![] + s + seq![] =~= s);
    } else {
        assert(trimmed(s) == s);
    }
}

/// Every code the backend issues passes the shape check that verification
/// applies to what the user types back.
pub proof fn lemma_issued_code_passes_shape_check(code: Seq<char>)
    requires
        is_six_digit_code(code),
    ensures
        trimmed(code) == code,
        is_six_digit_code(trimmed(code)),
{
    assert forall|i: int| 0 <= i < code.len() implies !is_ws(#[trigger] code[i]) by {
        assert('0' <= code[i] <= '9');
    }
    lemma_trim_keeps_visible(code);
}

/// The token handed out by a successful verification is hashed, when it comes
/// back at sign-up, to exactly the hash stored for it.
pub proof fn lemma_issued_token_hash_matches(secret: Seq<char>, token: Seq<char>)
    requires
        is_lower_hex_of_len(token, 64),
    ensures
        trimmed(token) == token,
        hmac_hex(secret, email_token_message(trimmed(token))) == hmac_hex(
            secret,
            email_token_message(token),
        ),
{
    assert forall|i: int| 0 <= i < token.len() implies !is_ws(#[trigger] token[i]) by {
        assert(crate::hexenc::is_lower_hex_char(token[i]));
    }
    lemma_trim_keeps_visible(token);
}


/// The code the user types back, surrounded by blanks or not, is checked
/// under exactly the hash stored when it was issued: verification accepts
/// the issued code.
pub proof fn lemma_issued_code_verifies(
    secret: Seq<char>,
    email: Seq<char>,
    code: Seq<char>,
    pre: Seq<char>,
    post: Seq<char>,
)
    requires
        is_six_digit_code(code),
        forall|i: int| 0 <= i < pre.len() ==> is_ws(#[trigger] pre[i]),
        forall|i: int| 0 <= i < post.len() ==> is_ws(#[trigger] post[i]),
    ensures
        trimmed(pre + code + post) == code,
        is_six_digit_code(trimmed(pre + code + post)),
        hmac_hex(secret, email_code_message(email, trimmed(pre + code + post))) == hmac_hex(
            secret,
            email_code_message(email, code),
        ),
{
    assert('0' <= code[0] <= '9');
    assert('0' <= code[5] <= '9');
    assert(code.last() == code[5]);
    crate::text::lemma_trimmed_padded(pre, code, post);
}

/// Blanks around an address do not change its normalized form, so an
/// address typed with surrounding blanks names the same verification
/// records and the same account.
pub proof fn lemma_normalized_email_ignores_padding(email: Seq<char>, pre: Seq<char>, post: Seq<char>)
    requires
        email.len() > 0,
        !is_ws(email[0]),
        !is_ws(email.last()),
        forall|i: int| 0 <= i < pre.len() ==> is_ws(#[trigger] pre[i]),
        forall|i: int| 0 <= i < post.len() ==> is_ws(#[trigger] post[i]),
    ensures
        normalized_email(pre + email + post) == normalized_email(email),
        valid_email(normalized_email(pre + email + post)) == valid_email(normalized_email(email)),
{
    crate::text::lemma_trimmed_padded(pre, email, post);
    crate::text::lemma_trimmed_padded(seq![], email, seq![]);
    assert(seq![] + email + seq![] =~= email);
}

} // verus!
