//! Authentication of API callers: Firebase ID tokens for account holders,
//! device tokens (`dt_...`) for children's devices, and the rule that device
//! tokens may only read.
use vstd::prelude::*;

use crate::crypto::{device_token_hash, hash_device_token};
use crate::errors::{AppError, forbidden, unauthorized};
use crate::text::{has_prefix, owned, str_eq, strip_prefix};

verus! {

/// Where the caller's identity came from.
#[derive(Clone, Copy, Debug, PartialEq, Eq, Structural)]
pub enum AuthSource {
    Firebase,
    DeviceToken,
}

/// The authenticated caller, as handlers see it.
#[derive(Clone, Debug)]
pub struct AuthUser {
    /// Local account id; for a device token, the parent's account.
    pub user_id: String,
    pub source: AuthSource,
    /// The child's device, for device tokens only.
    pub device_id: Option<String>,
}

/// The subset of Firebase ID-token claims the backend reads.
#[derive(Clone, Debug)]
pub struct FirebaseClaims {
    /// Firebase UID.
    pub sub: String,
    pub email: Option<String>,
    pub name: Option<String>,
    pub email_verified: Option<bool>,
    pub firebase: Option<FirebaseAuthInfo>,
}

/// The `firebase` claim: how the user signed in.
#[derive(Clone, Debug)]
pub struct FirebaseAuthInfo {
    pub sign_in_provider: Option<String>,
}

/// The sign-in provider named by the claims, if any.
pub open spec fn provider_of(claims: FirebaseClaims) -> Option<Seq<char>> {
    match claims.firebase {
        Some(info) => match info.sign_in_provider {
            Some(p) => Some(p@),
            None => None,
        },
        None => None,
    }
}

impl FirebaseClaims {
    /// The sign-in provider (`password`, `google.com`, ...), if the token
    /// names one.
    pub fn sign_in_provider(&self) -> (r: Option<&str>)
        ensures
            match r {
                Some(p) => provider_of(*self) == Some(p@),
                None => provider_of(*self) is None,
            },
    {
        match &self.firebase {
            Some(info) => match &info.sign_in_provider {
                Some(p) => Some(p.as_str()),
                None => None,
            },
            None => None,
        }
    }
}

// ---------------------------------------------------------------------------
// Credentials
// ---------------------------------------------------------------------------
/// A credential taken from `Authorization: Bearer <...>`.
#[derive(Clone, Debug)]
pub enum Credential {
    /// A child's device token, without its `dt_` prefix.
    DeviceToken(String),
    /// Anything else: a Firebase ID token.
    FirebaseJwt(String),
}

/// The token of an `Authorization` header value: what follows `Bearer `.
pub open spec fn bearer_of(header: Seq<char>) -> Option<Seq<char>> {
    if has_prefix(header, "Bearer "@) {
        Some(header.skip(7))
    } else {
        None
    }
}

/// How a bearer token is read: `dt_` marks a device token (the rest is the
/// plain secret), anything else is a Firebase ID token.
pub open spec fn credential_of(token: Seq<char>) -> (bool, Seq<char>) {
    if has_prefix(token, "dt_"@) {
        (true, token.skip(3))
    } else {
        (false, token)
    }
}

proof fn lemma_bearer_len()
    ensures
        "Bearer "@.len() == 7,
        "dt_"@.len() == 3,
{
    reveal_strlit("Bearer ");
    reveal_strlit("dt_");
}

/// The bearer token of a request, for the public handlers that check the
/// Firebase token themselves; a missing header (or one that is not
/// `Bearer ...`) is a 401 `Authorization ausente`.
pub fn extract_bearer_token(authorization: Option<&str>) -> (r: Result<String, AppError>)
    ensures
        match authorization {
            Some(h) => match bearer_of(h@) {
                Some(t) => r matches Ok(s) && s@ == t,
                None => r matches Err(AppError::Unauthorized(m)) && m@ == "Authorization ausente"@,
            },
            None => r matches Err(AppError::Unauthorized(m)) && m@ == "Authorization ausente"@,
        },
{
    proof {
        lemma_bearer_len();
    }
    match authorization {
        Some(h) => match strip_prefix(h, "Bearer ") {
            Some(t) => Ok(t),
            None => Err(unauthorized("Authorization ausente")),
        },
        None => Err(unauthorized("Authorization ausente")),
    }
}

/// Reads a bearer token as a device token or a Firebase token.
pub fn classify_credential(token: &str) -> (r: Credential)
    ensures
        credential_of(token@).0 ==> (r matches Credential::DeviceToken(p) && p@ == credential_of(
            token@,
        ).1),
        !credential_of(token@).0 ==> (r matches Credential::FirebaseJwt(t) && t@ == token@),
{
    proof {
        lemma_bearer_len();
    }
    match strip_prefix(token, "dt_") {
        Some(plain) => Credential::DeviceToken(plain),
        None => Credential::FirebaseJwt(owned(token)),
    }
}

/// The credential of a protected request, from its `Authorization` header;
/// `None` (answered 401) when the header is missing or not `Bearer ...`.
pub fn credential_from_header(authorization: Option<&str>) -> (r: Option<Credential>)
    ensures
        match authorization {
            Some(h) => match bearer_of(h@) {
                Some(t) => match r {
                    Some(Credential::DeviceToken(p)) => credential_of(t).0 && p@ == credential_of(t).1,
                    Some(Credential::FirebaseJwt(j)) => !credential_of(t).0 && j@ == t,
                    None => false,
                },
                None => r is None,
            },
            None => r is None,
        },
{
    match extract_bearer_token(authorization) {
        Ok(t) => Some(classify_credential(t.as_str())),
        Err(_) => None,
    }
}

/// Device tokens may only read: a device-token request with any method
/// other than GET or HEAD is refused (403) before reaching a handler.
pub open spec fn method_allowed_spec(source: AuthSource, method: Seq<char>) -> bool {
    source == AuthSource::Firebase || method == "GET"@ || method == "HEAD"@
}

/// Whether the caller may use `method` (an HTTP method name).
pub fn method_allowed(source: AuthSource, method: &str) -> (r: bool)
    ensures
        r == method_allowed_spec(source, method@),
{
    match source {
        AuthSource::Firebase => true,
        AuthSource::DeviceToken => str_eq(method, "GET") || str_eq(method, "HEAD"),
    }
}

/// The caller behind a device token, from the lookup of its hash among
/// unrevoked tokens (`(user_id, device_id)`); unknown or revoked tokens are
/// a 401.
pub fn device_token_caller(row: Option<(String, String)>) -> (r: Result<AuthUser, AppError>)
    ensures
        match row {
            Some((u, d)) => r matches Ok(a) && a.user_id == u && a.source == AuthSource::DeviceToken
                && a.device_id == Some(d),
            None => r matches Err(AppError::Unauthorized(m)) && m@
                == "Device token inválido ou revogado"@,
        },
{
    match row {
        Some((user_id, device_id)) => Ok(
            AuthUser { user_id, source: AuthSource::DeviceToken, device_id: Some(device_id) },
        ),
        None => Err(unauthorized("Device token inválido ou revogado")),
    }
}

/// The caller behind a valid Firebase token, from the lookup of its UID
/// among local accounts; an unregistered UID is a 401.
pub fn firebase_caller(user_id: Option<String>) -> (r: Result<AuthUser, AppError>)
    ensures
        match user_id {
            Some(u) => r matches Ok(a) && a.user_id == u && a.source == AuthSource::Firebase
                && a.device_id is None,
            None => r matches Err(AppError::Unauthorized(m)) && m@
                == "Usuário não registrado localmente — chame /auth/register"@,
        },
{
    match user_id {
        Some(user_id) => Ok(AuthUser { user_id, source: AuthSource::Firebase, device_id: None }),
        None => Err(unauthorized("Usuário não registrado localmente — chame /auth/register")),
    }
}

/// Handlers reserved to the account holder refuse other callers with 403
/// and the handler's message.
pub fn require_firebase(source: AuthSource, msg: &str) -> (r: Result<(), AppError>)
    ensures
        source == AuthSource::Firebase ==> r is Ok,
        source != AuthSource::Firebase ==> (r matches Err(AppError::Forbidden(m)) && m@ == msg@),
{
    match source {
        AuthSource::Firebase => Ok(()),
        AuthSource::DeviceToken => Err(forbidden(msg)),
    }
}

// ---------------------------------------------------------------------------
// Firebase ID tokens
// ---------------------------------------------------------------------------
/// The issuer a Firebase ID token of `project_id` must carry.
pub fn firebase_issuer(project_id: &str) -> (r: String)
    ensures
        r@ == "https://securetoken.google.com/"@ + project_id@,
{
    let mut s = String::from_str("https://securetoken.google.com/");
    s.append(project_id);
    s
}

/// Names what `jsonwebtoken::decode_header` reads from a token: the `kid`
/// of its header (`Ok(None)` when the header has none), or the decoding
/// error's message.
pub uninterp spec fn jwt_header_kid(token: Seq<char>) -> Result<Option<Seq<char>>, Seq<char>>;

/// `jsonwebtoken::decode_header`, keeping only the header's `kid` (or the
/// error's `Display`). Decoding is a function of the token alone, named by
/// `jwt_header_kid`; the base64/JSON decoding is not restated.
#[verifier::external_body]
fn decode_header_kid(token: &str) -> (r: Result<Option<String>, String>)
    ensures
        jwt_header_kid(token@) == match r {
            Ok(Some(k)) => Ok::<Option<Seq<char>>, Seq<char>>(Some(k@)),
            Ok(None) => Ok::<Option<Seq<char>>, Seq<char>>(None),
            Err(e) => Err::<Option<Seq<char>>, Seq<char>>(e@),
        },
{
    match jsonwebtoken::decode_header(token) {
        Ok(header) => Ok(header.kid),
        Err(e) => Err(e.to_string()),
    }
}

/// What a decoded header means for authentication: its `kid`, or a 401
/// (`JWT header inválido: <error>` for an undecodable header, `JWT sem kid`
/// for a header without key id).
pub fn kid_from_header(decoded: Result<Option<String>, String>) -> (r: Result<String, AppError>)
    ensures
        match decoded {
            Ok(Some(k)) => r matches Ok(s) && s@ == k@,
            Ok(None) => r matches Err(AppError::Unauthorized(m)) && m@ == "JWT sem kid"@,
            Err(e) => r matches Err(AppError::Unauthorized(m)) && m@ == "JWT header inválido: "@ + e@,
        },
{
    match decoded {
        Ok(Some(kid)) => Ok(kid),
        Ok(None) => Err(unauthorized("JWT sem kid")),
        Err(e) => {
            let mut m = String::from_str("JWT header inválido: ");
            m.append(e.as_str());
            Err(AppError::Unauthorized(m))
        },
    }
}

/// The key id a token is signed with: an undecodable header is a 401
/// `JWT header inválido: <error>`, a header without `kid` a 401
/// `JWT sem kid`.
pub fn token_kid(token: &str) -> (r: Result<String, AppError>)
    ensures
        match jwt_header_kid(token@) {
            Ok(Some(k)) => r matches Ok(s) && s@ == k,
            Ok(None) => r matches Err(AppError::Unauthorized(m)) && m@ == "JWT sem kid"@,
            Err(e) => r matches Err(AppError::Unauthorized(m)) && m@ == "JWT header inválido: "@ + e,
        },
{
    kid_from_header(decode_header_kid(token))
}

/// How long fetched Firebase public keys are trusted, in seconds (6 h).
pub const JWKS_TTL_SECS: u64 = 21600;

/// Whether a cached key set answers a lookup: it must exist, be younger
/// than the TTL, and hold the token's `kid`; otherwise the keys are
/// fetched again.
pub fn jwks_cache_hit(cache_age_secs: Option<u64>, kid_cached: bool) -> (r: bool)
    ensures
        r == (cache_age_secs matches Some(age) && age < JWKS_TTL_SECS && kid_cached),
{
    match cache_age_secs {
        Some(age) => age < JWKS_TTL_SECS && kid_cached,
        None => false,
    }
}

// ---------------------------------------------------------------------------
// Laws
// ---------------------------------------------------------------------------
/// A device token presented as `Authorization: Bearer <bearer>`, where
/// `bearer` is `dt_` followed by the plain secret, is read as that device
/// token, and its hash is the one stored when it was issued.
pub proof fn lemma_issued_token_authenticates(plain: Seq<char>)
    ensures
        bearer_of("Bearer "@ + ("dt_"@ + plain)) == Some("dt_"@ + plain),
        credential_of("dt_"@ + plain) == (true, plain),
        device_token_hash(credential_of("dt_"@ + plain).1) == device_token_hash(plain),
{
    lemma_bearer_len();
    let h = "Bearer "@ + ("dt_"@ + plain);
    assert(h.subrange(0, 7) =~= "Bearer "@);
    assert(h.skip(7) =~= "dt_"@ + plain);
    let t = "dt_"@ + plain;
    assert(t.subrange(0, 3) =~= "dt_"@);
    assert(t.skip(3) =~= plain);
}

} // verus!
