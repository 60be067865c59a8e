//! Devices and parental linking: the rules of registering a parent's device,
//! linking a child's device with a six-digit code, revoking it, and
//! accepting tampering reports from it.
use vstd::prelude::*;

use crate::crypto::{device_token_hash, hash_device_token};
use crate::errors::{AppError, bad_request, not_found, unauthorized};
use crate::models::{ConfirmLinkResponse, Device, GenerateLinkCodeResponse, Platform};
use crate::random::IssuedDeviceToken;
use crate::text::{has_prefix, str_eq, str_lt, lex_lt, strip_prefix, trim, trimmed};
use crate::util::{ServiceError, map_unique_violation};

verus! {

/// Lifetime of a parental link code, in seconds (5 minutes).
pub const LINK_CODE_TTL_SECS: i64 = 300;

// ---------------------------------------------------------------------------
// Tampering reports
// ---------------------------------------------------------------------------
/// The event kinds a child's device may report.
pub open spec fn valid_kind_spec(kind: Seq<char>) -> bool {
    kind == "vpn_revoked"@ || kind == "vpn_settings_opened"@ || kind == "dns_settings_opened"@
}

/// Whether `kind` is a known tampering event.
pub fn is_valid_kind(kind: &str) -> (r: bool)
    ensures
        r == valid_kind_spec(kind@),
{
    str_eq(kind, "vpn_revoked") || str_eq(kind, "vpn_settings_opened") || str_eq(
        kind,
        "dns_settings_opened",
    )
}

/// A device token as sent in a report body: trimmed, then without its
/// optional `dt_` prefix.
pub open spec fn normalized_device_token(raw: Seq<char>) -> Seq<char> {
    let t = trimmed(raw);
    if has_prefix(t, "dt_"@) {
        t.skip(3)
    } else {
        t
    }
}

/// Strips blanks and the optional `dt_` prefix from a reported token, so
/// that its hash matches the one stored at issue time.
pub fn normalize_device_token(raw: &str) -> (r: String)
    ensures
        r@ == normalized_device_token(raw@),
{
    proof {
        reveal_strlit("dt_");
    }
    let t = trim(raw);
    match strip_prefix(t.as_str(), "dt_") {
        Some(rest) => rest,
        None => t,
    }
}

/// A checked tampering report, ready to be recorded.
pub struct TamperReport {
    /// The event kind, trimmed.
    pub kind: String,
    /// The hash to look up among unrevoked device tokens.
    pub token_hash: String,
}

/// Checks a report: the trimmed kind must be known (else 400 `tipo de
/// evento inválido`); the token is normalized and hashed.
pub fn prepare_tamper_report(device_token_raw: &str, kind: &str) -> (r: Result<TamperReport, AppError>)
    ensures
        !valid_kind_spec(trimmed(kind@)) ==> (r matches Err(AppError::BadRequest(m)) && m@
            == "tipo de evento inválido"@),
        valid_kind_spec(trimmed(kind@)) ==> (r matches Ok(rep) && rep.kind@ == trimmed(kind@)
            && rep.token_hash@ == device_token_hash(normalized_device_token(device_token_raw@))),
{
    let kind = trim(kind);
    if !is_valid_kind(kind.as_str()) {
        return Err(bad_request("tipo de evento inválido"));
    }
    let plain = normalize_device_token(device_token_raw);
    let token_hash = hash_device_token(plain.as_str());
    Ok(TamperReport { kind, token_hash })
}

/// A report whose token matched no unrevoked device token was not recorded
/// and is a 401.
pub fn check_tamper_recorded(inserted: bool) -> (r: Result<(), AppError>)
    ensures
        inserted ==> r is Ok,
        !inserted ==> (r matches Err(AppError::Unauthorized(m)) && m@
            == "Device token inválido ou revogado"@),
{
    if inserted {
        Ok(())
    } else {
        Err(unauthorized("Device token inválido ou revogado"))
    }
}

// ---------------------------------------------------------------------------
// Parent devices
// ---------------------------------------------------------------------------
/// The device record of a parent's device just registered: never a child
/// (children's devices only come from a confirmed link).
pub fn new_parent_device(
    id: String,
    user_id: String,
    device_name: String,
    platform: Platform,
    created_at: String,
) -> (r: Device)
    ensures
        r.id == id,
        r.user_id == user_id,
        r.device_name == device_name,
        r.platform == platform,
        !r.is_child,
        r.created_at == created_at,
{
    Device { id, user_id, device_name, platform, is_child: false, created_at }
}

// ---------------------------------------------------------------------------
// Link codes
// ---------------------------------------------------------------------------
/// A link code hangs off the parent's oldest device; without one the parent
/// must register a device first (400).
pub fn require_parent_device(parent_device_id: Option<String>) -> (r: Result<String, AppError>)
    ensures
        match parent_device_id {
            Some(d) => r matches Ok(x) && x == d,
            None => r matches Err(AppError::BadRequest(m)) && m@
                == "Nenhum device do pai registrado — chame /devices/register primeiro"@,
        },
{
    match parent_device_id {
        Some(d) => Ok(d),
        None => Err(bad_request("Nenhum device do pai registrado — chame /devices/register primeiro")),
    }
}

/// A failed insert of a pending code: a clash with another pending code is a
/// 409 (the parent may retry), anything else a 500.
pub fn map_link_code_insert_error(msg: String) -> (r: AppError)
    ensures
        crate::text::contains_seq(msg@, "UNIQUE"@) ==> (r matches AppError::Conflict(m) && m@
            == "Código já em uso — tente novamente"@),
        !crate::text::contains_seq(msg@, "UNIQUE"@) ==> (r matches AppError::InternalServerError(m)
            && m@ == msg@),
{
    map_unique_violation(msg, "Código já em uso — tente novamente")
}

/// The answer of a code generation.
pub fn link_code_response(code: String, expires_at: String) -> (r: GenerateLinkCodeResponse)
    ensures
        r.code == code,
        r.expires_at == expires_at,
{
    GenerateLinkCodeResponse { code, expires_at }
}

/// A pending link found by its code.
pub struct PendingLink {
    pub id: String,
    pub parent_device_id: String,
    pub expires_at: String,
}

/// Confirming a code: no pending link with it is `LinkNotFound`; a link whose
/// `expires_at` is before `now` is `LinkExpired`; otherwise the link is
/// usable.
pub fn check_link(link: Option<PendingLink>, now: &str) -> (r: Result<PendingLink, ServiceError>)
    ensures
        match link {
            None => r == Err::<PendingLink, ServiceError>(ServiceError::LinkNotFound),
            Some(l) => if lex_lt(l.expires_at@, now@) {
                r == Err::<PendingLink, ServiceError>(ServiceError::LinkExpired)
            } else {
                r == Ok::<PendingLink, ServiceError>(l)
            },
        },
{
    match link {
        None => Err(ServiceError::LinkNotFound),
        Some(l) => {
            if str_lt(l.expires_at.as_str(), now) {
                Err(ServiceError::LinkExpired)
            } else {
                Ok(l)
            }
        },
    }
}

/// The answer of a confirmed link: the `dt_` credential shown once to the
/// child's device, the new device, and the parent's account and device.
pub fn confirm_link_response(
    token: IssuedDeviceToken,
    child_device_id: String,
    parent_user_id: String,
    parent_device_id: String,
) -> (r: ConfirmLinkResponse)
    ensures
        r.device_token == token.bearer,
        r.device_id == child_device_id,
        r.user_id == parent_user_id,
        r.parent_device_id == parent_device_id,
{
    ConfirmLinkResponse {
        device_token: token.bearer,
        device_id: child_device_id,
        user_id: parent_user_id,
        parent_device_id,
    }
}

// ---------------------------------------------------------------------------
// Revocation
// ---------------------------------------------------------------------------
/// Revoking a child's device: when the device is not a child of the caller
/// (or has no live token left), nothing changes and the answer is 404.
pub fn check_revocation(revoked_tokens: usize) -> (r: Result<(), AppError>)
    ensures
        revoked_tokens == 0 ==> (r matches Err(AppError::NotFound(m)) && m@
            == "Filho não encontrado ou já revogado"@),
        revoked_tokens > 0 ==> r is Ok,
{
    if revoked_tokens == 0 {
        Err(not_found("Filho não encontrado ou já revogado"))
    } else {
        Ok(())
    }
}

// ---------------------------------------------------------------------------
// Laws
// ---------------------------------------------------------------------------
/// A token issued as `dt_<plain>` and later reported in a tampering body,
/// with or without the prefix and surrounded by blanks, is looked up under
/// the same hash it was stored with.
pub proof fn lemma_reported_token_matches_issued(plain: Seq<char>, pre: Seq<char>, post: Seq<char>)
    requires
        plain.len() > 0,
        !crate::text::is_ws(plain[0]),
        !crate::text::is_ws(plain.last()),
        !has_prefix(plain, "dt_"@),
        forall|i: int| 0 <= i < pre.len() ==> crate::text::is_ws(#[trigger] pre[i]),
        forall|i: int| 0 <= i < post.len() ==> crate::text::is_ws(#[trigger] post[i]),
    ensures
        normalized_device_token(pre + ("dt_"@ + plain) + post) == plain,
        normalized_device_token(pre + plain + post) == plain,
{
    reveal_strlit("dt_");
    let with = "dt_"@ + plain;
    assert(with[0] == 'd');
    assert(with.last() == plain.last());
    crate::text::lemma_trimmed_padded(pre, with, post);
    crate::text::lemma_trimmed_padded(pre, plain, post);
    assert(with.subrange(0, 3) =~= "dt_"@);
    assert(with.skip(3) =~= plain);
}

} // verus!
