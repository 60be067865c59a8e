//! Local accounts: what a new account stores, and how lookups that find
//! nothing are answered.
use vstd::prelude::*;

use crate::email::{RESEND_COOLDOWN_SECS, normalize_email, normalized_email, valid_email};
use crate::errors::{AppError, not_found};
use crate::models::{BlockMode, EmailCodeStartResponse, EmailCodeVerifyResponse, User};
use crate::text::{all_ascii, ascii_lower_seq, trim, trimmed};
use crate::util::{block_mode_text, block_mode_to_sql};

verus! {

/// The columns of a new account, before it is inserted.
pub struct NewUser {
    /// The normalized email.
    pub email: String,
    /// The trimmed display name.
    pub display_name: String,
    /// The stored text of the account mode.
    pub mode: &'static str,
}

/// Prepares a new account: the email is normalized (400 when invalid) and
/// the display name trimmed.
pub fn prepare_new_user(email: &str, display_name: &str, mode: BlockMode) -> (r: Result<
    NewUser,
    AppError,
>)
    ensures
        valid_email(normalized_email(email@)) ==> (r matches Ok(u) && u.email@ == normalized_email(
            email@,
        ) && u.display_name@ == trimmed(display_name@) && u.mode@ == block_mode_text(mode)),
        !valid_email(normalized_email(email@)) ==> (r matches Err(AppError::BadRequest(m)) && m@
            == "Email invalido"@),
        all_ascii(email@) ==> normalized_email(email@) == ascii_lower_seq(trimmed(email@)),
{
    let email = match normalize_email(email) {
        Ok(e) => e,
        Err(e) => {
            return Err(e);
        },
    };
    let display_name = trim(display_name);
    Ok(NewUser { email, display_name, mode: block_mode_to_sql(&mode) })
}

/// A failed account insert (typically a duplicate Firebase UID) is a 409
/// quoting the database error.
pub fn map_create_user_error(msg: &str) -> (r: AppError)
    ensures
        r matches AppError::Conflict(m) && m@ == "Falha ao criar usuário: "@ + msg@,
{
    let mut m = String::from_str("Falha ao criar usuário: ");
    m.append(msg);
    AppError::Conflict(m)
}

/// `GET /auth/me`: the caller's account must exist (404 otherwise).
pub fn require_user(found: Option<User>) -> (r: Result<User, AppError>)
    ensures
        match found {
            Some(u) => r matches Ok(x) && x == u,
            None => r matches Err(AppError::NotFound(m)) && m@ == "Usuário não encontrado"@,
        },
{
    match found {
        Some(u) => Ok(u),
        None => Err(not_found("Usuário não encontrado")),
    }
}

/// `POST /auth/login`: the Firebase identity must have a local account (404
/// asking to register otherwise).
pub fn require_registered(found: Option<User>) -> (r: Result<User, AppError>)
    ensures
        match found {
            Some(u) => r matches Ok(x) && x == u,
            None => r matches Err(AppError::NotFound(m)) && m@
                == "Usuario nao registrado localmente - chame /auth/register"@,
        },
{
    match found {
        Some(u) => Ok(u),
        None => Err(not_found("Usuario nao registrado localmente - chame /auth/register")),
    }
}

/// The account just inserted must be readable back (500 otherwise).
pub fn require_created(found: Option<User>) -> (r: Result<User, AppError>)
    ensures
        match found {
            Some(u) => r matches Ok(x) && x == u,
            None => r matches Err(AppError::InternalServerError(m)) && m@
                == "User recém-criado não encontrado"@,
        },
{
    match found {
        Some(u) => Ok(u),
        None => Err(AppError::InternalServerError(String::from_str("User recém-criado não encontrado"))),
    }
}

/// The answer of `POST /auth/email-code/start`: when the code expires and
/// how long to wait before asking for another.
pub fn email_code_start_response(expires_at: String) -> (r: EmailCodeStartResponse)
    ensures
        r.expires_at == expires_at,
        r.resend_after_seconds == RESEND_COOLDOWN_SECS,
{
    EmailCodeStartResponse { expires_at, resend_after_seconds: RESEND_COOLDOWN_SECS }
}

/// The answer of `POST /auth/email-code/verify`: the token that proves the
/// email at sign-up.
pub fn email_code_verify_response(token: String) -> (r: EmailCodeVerifyResponse)
    ensures
        r.email_verification_token == token,
{
    EmailCodeVerifyResponse { email_verification_token: token }
}

} // verus!
