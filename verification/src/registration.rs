//! Sign-up: choosing the account's email and display name from the Firebase
//! claims and the request body, and deciding how `POST /auth/register`
//! creates or reclaims the account.
use vstd::prelude::*;

use crate::auth::{FirebaseClaims, provider_of};
use crate::errors::{AppError, bad_request};
use crate::models::RegisterRequest;
use crate::text::{
    ascii_lower_seq, before_first, before_first_char, chars_of, eq_ignore_ascii_case, string_of, trim,
    trim_chars, trimmed,
};

verus! {

pub open spec fn opt_trimmed_nonempty(v: Option<String>) -> Option<Seq<char>> {
    match v {
        Some(s) => if trimmed(s@).len() > 0 {
            Some(trimmed(s@))
        } else {
            None
        },
        None => None,
    }
}

/// The name derived from an address when no name is known: the trimmed part
/// before the first `@`, or `Usuario` when that is blank.
pub open spec fn fallback_name_spec(email: Seq<char>) -> Seq<char> {
    let t = trimmed(before_first(email, '@'));
    if t.len() > 0 {
        t
    } else {
        "Usuario"@
    }
}

/// The account email: the claim's (trimmed, non-blank) when present, which
/// the body may repeat in any ASCII case but not contradict; otherwise the
/// body's (trimmed, non-blank).
pub open spec fn identity_email_spec(claims: FirebaseClaims, payload: RegisterRequest) -> Result<
    Seq<char>,
    Seq<char>,
> {
    let body = trimmed(payload.email@);
    match opt_trimmed_nonempty(claims.email) {
        Some(ce) => if body.len() > 0 && ascii_lower_seq(body) != ascii_lower_seq(ce) {
            Err("O email informado nao corresponde ao email autenticado no Firebase"@)
        } else {
            Ok(ce)
        },
        None => if body.len() > 0 {
            Ok(body)
        } else {
            Err("Nao foi possivel determinar o email autenticado"@)
        },
    }
}

/// The display name: the claim's, else the body's (both trimmed and
/// non-blank), else derived from the email.
pub open spec fn identity_name_spec(
    claims: FirebaseClaims,
    payload: RegisterRequest,
    email: Seq<char>,
) -> Seq<char> {
    match opt_trimmed_nonempty(claims.name) {
        Some(n) => n,
        None => if trimmed(payload.display_name@).len() > 0 {
            trimmed(payload.display_name@)
        } else {
            fallback_name_spec(email)
        },
    }
}

/// The name derived from an address (the part before `@`).
pub fn fallback_display_name(email: &str) -> (r: String)
    ensures
        r@ == fallback_name_spec(email@),
{
    let cs = chars_of(email);
    let local = before_first_char(cs.as_slice(), '@');
    let t = trim_chars(local.as_slice());
    if t.len() > 0 {
        string_of(t.as_slice())
    } else {
        String::from_str("Usuario")
    }
}

fn trimmed_nonempty(v: &Option<String>) -> (r: Option<String>)
    ensures
        match r {
            Some(s) => opt_trimmed_nonempty(*v) == Some(s@),
            None => opt_trimmed_nonempty(*v) is None,
        },
{
    match v {
        Some(s) => {
            let t = trim(s.as_str());
            if t.as_str().unicode_len() > 0 {
                Some(t)
            } else {
                None
            }
        },
        None => None,
    }
}

/// Chooses the account's email and display name (400 when the body
/// contradicts the token's email, or when no email is known).
pub fn resolve_registration_identity(claims: &FirebaseClaims, payload: &RegisterRequest) -> (r:
    Result<(String, String), AppError>)
    ensures
        match identity_email_spec(*claims, *payload) {
            Ok(e) => r matches Ok((email, name)) && email@ == e && name@ == identity_name_spec(
                *claims,
                *payload,
                e,
            ),
            Err(msg) => r matches Err(AppError::BadRequest(m)) && m@ == msg,
        },
        claim_email_agrees(*claims, *payload) ==> (r matches Ok((email, _)) && email@ == trimmed(
            claims.email.unwrap()@,
        )),
        claim_email_contradicted(*claims, *payload) ==> (r matches Err(AppError::BadRequest(m)) && m@
            == "O email informado nao corresponde ao email autenticado no Firebase"@),
{
    proof {
        lemma_claim_email_wins_in_any_ascii_case(*claims, *payload);
    }
    let body = trim(payload.email.as_str());
    let body_chars = chars_of(body.as_str());
    let email = match trimmed_nonempty(&claims.email) {
        Some(claim_email) => {
            let ce = chars_of(claim_email.as_str());
            if body_chars.len() > 0 && !eq_ignore_ascii_case(body_chars.as_slice(), ce.as_slice()) {
                return Err(
                    bad_request("O email informado nao corresponde ao email autenticado no Firebase"),
                );
            }
            claim_email
        },
        None => {
            if body_chars.len() > 0 {
                body
            } else {
                return Err(bad_request("Nao foi possivel determinar o email autenticado"));
            }
        },
    };
    let display_name = match trimmed_nonempty(&claims.name) {
        Some(n) => n,
        None => {
            let body_name = trim(payload.display_name.as_str());
            if body_name.as_str().unicode_len() > 0 {
                body_name
            } else {
                fallback_display_name(email.as_str())
            }
        },
    };
    Ok((email, display_name))
}

/// Password accounts must prove their email with a code.
pub open spec fn requires_code_spec(claims: FirebaseClaims) -> bool {
    provider_of(claims) == Some("password"@)
}

/// Other providers count as proof when they vouch for the email.
pub open spec fn already_verified_spec(claims: FirebaseClaims) -> bool {
    !requires_code_spec(claims) && claims.email_verified == Some(true)
}

/// Whether the sign-in provider is `password`, whose users must verify their
/// email with a code before sign-up.
pub fn requires_email_verification_code(claims: &FirebaseClaims) -> (r: bool)
    ensures
        r == requires_code_spec(*claims),
        r == (provider_of(*claims) == Some("password"@)),
{
    match claims.sign_in_provider() {
        Some(p) => crate::text::str_eq(p, "password"),
        None => false,
    }
}

/// Whether the provider already vouches for the email (not `password`, and
/// `email_verified` is true).
pub fn provider_is_already_verified(claims: &FirebaseClaims) -> (r: bool)
    ensures
        r == already_verified_spec(*claims),
        r == (provider_of(*claims) != Some("password"@) && claims.email_verified == Some(true)),
{
    !requires_email_verification_code(claims) && match claims.email_verified {
        Some(v) => v,
        None => false,
    }
}

/// The email verification token of a password sign-up, trimmed; absent or
/// blank is a 400 asking to verify the email first.
pub fn require_email_verification_token(payload: &RegisterRequest) -> (r: Result<String, AppError>)
    ensures
        match opt_trimmed_nonempty(payload.email_verification_token) {
            Some(t) => r matches Ok(s) && s@ == t,
            None => r matches Err(AppError::BadRequest(m)) && m@
                == "Verifique seu email antes de concluir o cadastro"@,
        },
{
    match trimmed_nonempty(&payload.email_verification_token) {
        Some(t) => Ok(t),
        None => Err(bad_request("Verifique seu email antes de concluir o cadastro")),
    }
}

/// How `POST /auth/register` proceeds once it knows that no account has the
/// token's Firebase UID.
#[derive(Debug, Clone)]
pub enum RegistrationPlan {
    /// Rebind the account holding `email` to the new UID, spending the
    /// verification token.
    Reclaim { email: String, token: String },
    /// Rebind the account holding `email` to the new UID (provider-verified
    /// email).
    Rebind { email: String },
    /// Create the account, spending the verification token.
    CreateVerified { email: String, display_name: String, token: String },
    /// Create the account (provider-verified email).
    Create { email: String, display_name: String },
}

/// Decides the sign-up path. An existing account with the same email is
/// reclaimed, otherwise a new one is created; either way a password user
/// must present a verification token and any other user needs an email the
/// provider has verified (else 400).
pub fn plan_registration(
    claims: &FirebaseClaims,
    payload: &RegisterRequest,
    email: String,
    display_name: String,
    email_taken: bool,
) -> (r: Result<RegistrationPlan, AppError>)
    ensures
        requires_code_spec(*claims) && opt_trimmed_nonempty(payload.email_verification_token)
            is None ==> (r matches Err(AppError::BadRequest(m)) && m@
            == "Verifique seu email antes de concluir o cadastro"@),
        provider_of(*claims) == Some("password"@) && opt_trimmed_nonempty(
            payload.email_verification_token,
        ) is None ==> (r matches Err(AppError::BadRequest(m)) && m@
            == "Verifique seu email antes de concluir o cadastro"@),
        provider_of(*claims) == Some("password"@) && r is Ok ==> (r.unwrap() is Reclaim || r.unwrap() is CreateVerified),
        !requires_code_spec(*claims) && !already_verified_spec(*claims) ==> (r matches Err(
            AppError::BadRequest(m),
        ) && m@ == "Email do provedor de login nao esta verificado"@),
        r matches Ok(plan) ==> match plan {
            RegistrationPlan::Reclaim { email: e, token: t } => email_taken && requires_code_spec(
                *claims,
            ) && e == email && Some(t@) == opt_trimmed_nonempty(payload.email_verification_token),
            RegistrationPlan::Rebind { email: e } => email_taken && already_verified_spec(*claims)
                && e == email,
            RegistrationPlan::CreateVerified { email: e, display_name: n, token: t } => !email_taken
                && requires_code_spec(*claims) && e == email && n == display_name && Some(t@)
                == opt_trimmed_nonempty(payload.email_verification_token),
            RegistrationPlan::Create { email: e, display_name: n } => !email_taken
                && already_verified_spec(*claims) && e == email && n == display_name,
        },
        (requires_code_spec(*claims) && opt_trimmed_nonempty(payload.email_verification_token)
            is Some) || already_verified_spec(*claims) ==> r is Ok,
{
    if requires_email_verification_code(claims) {
        let token = match require_email_verification_token(payload) {
            Ok(t) => t,
            Err(e) => {
                return Err(e);
            },
        };
        if email_taken {
            Ok(RegistrationPlan::Reclaim { email, token })
        } else {
            Ok(RegistrationPlan::CreateVerified { email, display_name, token })
        }
    } else {
        if !provider_is_already_verified(claims) {
            return Err(bad_request("Email do provedor de login nao esta verificado"));
        }
        if email_taken {
            Ok(RegistrationPlan::Rebind { email })
        } else {
            Ok(RegistrationPlan::Create { email, display_name })
        }
    }
}

/// A password sign-in never counts as provider-verified: such users always
/// go through the emailed code.
pub proof fn lemma_password_needs_code(claims: FirebaseClaims)
    ensures
        requires_code_spec(claims) ==> !already_verified_spec(claims),
{
}


/// The token's email, trimmed and non-blank, and a body email that is blank
/// or repeats it in some ASCII case.
pub open spec fn claim_email_agrees(claims: FirebaseClaims, payload: RegisterRequest) -> bool {
    &&& claims.email is Some
    &&& trimmed(claims.email.unwrap()@).len() > 0
    &&& (trimmed(payload.email@).len() == 0 || ascii_lower_seq(trimmed(payload.email@))
        == ascii_lower_seq(trimmed(claims.email.unwrap()@)))
}

/// The token's email, trimmed and non-blank, and a body email that differs
/// from it even ignoring ASCII case.
pub open spec fn claim_email_contradicted(claims: FirebaseClaims, payload: RegisterRequest) -> bool {
    &&& claims.email is Some
    &&& trimmed(claims.email.unwrap()@).len() > 0
    &&& trimmed(payload.email@).len() > 0
    &&& ascii_lower_seq(trimmed(payload.email@)) != ascii_lower_seq(trimmed(claims.email.unwrap()@))
}

/// When the token carries an email, the account gets that email (trimmed)
/// whatever ASCII case the body writes it in; only a body email that
/// differs from it beyond case is refused.
pub proof fn lemma_claim_email_wins_in_any_ascii_case(claims: FirebaseClaims, payload: RegisterRequest)
    ensures
        claim_email_agrees(claims, payload) ==> identity_email_spec(claims, payload) == Ok::<
            Seq<char>,
            Seq<char>,
        >(trimmed(claims.email.unwrap()@)),
        claim_email_contradicted(claims, payload) ==> identity_email_spec(claims, payload) == Err::<
            Seq<char>,
            Seq<char>,
        >("O email informado nao corresponde ao email autenticado no Firebase"@),
{
}

/// Whoever signs in with a password must prove the email with a code, even
/// when the token says the email is verified; any other provider needs no
/// code, and counts as proof exactly when it says the email is verified.
pub proof fn lemma_password_sign_in_always_needs_code(claims: FirebaseClaims)
    ensures
        provider_of(claims) == Some("password"@) ==> requires_code_spec(claims)
            && !already_verified_spec(claims),
        provider_of(claims) != Some("password"@) ==> !requires_code_spec(claims) && (
        already_verified_spec(claims) <==> claims.email_verified == Some(true)),
{
}

} // verus!
