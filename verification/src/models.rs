//! The domain entities the API reads and writes, and the request/response
//! payloads of its endpoints.
use vstd::prelude::*;

verus! {

/// Account mode: personal blocking, or a parent managing children's devices.
#[derive(Clone, Copy, Debug, PartialEq, Eq, Structural)]
pub enum BlockMode {
    Personal,
    Parental,
}

/// Platform of a registered device.
#[derive(Clone, Copy, Debug, PartialEq, Eq, Structural)]
pub enum Platform {
    Windows,
    Android,
}

/// What a blocklist entry blocks.
#[derive(Clone, Copy, Debug, PartialEq, Eq, Structural)]
pub enum BlockedType {
    Domain,
    App,
    Keyword,
}

/// A local account, bound to a Firebase identity.
#[derive(Clone, Debug)]
pub struct User {
    pub id: String,
    pub firebase_uid: String,
    pub email: String,
    pub display_name: String,
    pub mode: BlockMode,
    pub created_at: String,
}

/// A device of an account; children's devices carry `is_child`.
#[derive(Clone, Debug)]
pub struct Device {
    pub id: String,
    pub user_id: String,
    pub device_name: String,
    pub platform: Platform,
    pub is_child: bool,
    pub created_at: String,
}

/// One entry of a user's blocklist.
#[derive(Clone, Debug)]
pub struct BlockedItem {
    pub id: String,
    pub user_id: String,
    pub item_type: BlockedType,
    pub value: String,
    pub is_active: bool,
    pub created_at: String,
}

/// The adult-content filter switch of a user.
#[derive(Clone, Debug)]
pub struct AdultFilterSettings {
    pub id: String,
    pub user_id: String,
    pub is_enabled: bool,
    pub last_list_update: Option<String>,
}

/// A tampering event reported by a child's device.
#[derive(Clone, Debug)]
pub struct DeviceEvent {
    pub id: String,
    pub user_id: String,
    pub device_id: String,
    pub kind: String,
    pub created_at: String,
    pub acknowledged_at: Option<String>,
}

/// Body of `POST /auth/register`. The Firebase UID comes from the token,
/// never from the body.
#[derive(Clone, Debug)]
pub struct RegisterRequest {
    pub email: String,
    pub display_name: String,
    pub mode: BlockMode,
    pub email_verification_token: Option<String>,
}

/// Body of `PUT /auth/me`.
#[derive(Clone, Debug)]
pub struct UpdateModeRequest {
    pub mode: BlockMode,
}

/// Body of `POST /auth/email-code/start`.
#[derive(Clone, Debug)]
pub struct EmailCodeStartRequest {
    pub email: String,
}

/// Answer of `POST /auth/email-code/start`.
#[derive(Clone, Debug)]
pub struct EmailCodeStartResponse {
    pub expires_at: String,
    pub resend_after_seconds: i64,
}

/// Body of `POST /auth/email-code/verify`.
#[derive(Clone, Debug)]
pub struct EmailCodeVerifyRequest {
    pub email: String,
    pub code: String,
}

/// Answer of `POST /auth/email-code/verify`: the proof of email ownership.
#[derive(Clone, Debug)]
pub struct EmailCodeVerifyResponse {
    pub email_verification_token: String,
}

/// Body of `POST /blocklist`.
#[derive(Clone, Debug)]
pub struct CreateBlockedItemRequest {
    pub item_type: BlockedType,
    pub value: String,
}

/// Body of `PUT /blocklist/adult-filter`.
#[derive(Clone, Debug)]
pub struct AdultFilterToggleRequest {
    pub enabled: bool,
}

/// Body of `POST /devices/register` (always a parent's device).
#[derive(Clone, Debug)]
pub struct RegisterDeviceRequest {
    pub device_name: String,
    pub platform: Platform,
}

/// Answer of `POST /devices/link/generate`.
#[derive(Clone, Debug)]
pub struct GenerateLinkCodeResponse {
    pub code: String,
    pub expires_at: String,
}

/// Body of `POST /devices/link/confirm` (public route).
#[derive(Clone, Debug)]
pub struct ConfirmLinkRequest {
    pub code: String,
    pub device_name: String,
    pub platform: Platform,
}

/// Answer of `POST /devices/link/confirm`: the only time the device token
/// is shown in plain text.
#[derive(Clone, Debug)]
pub struct ConfirmLinkResponse {
    pub device_token: String,
    pub device_id: String,
    pub user_id: String,
    pub parent_device_id: String,
}

/// Body of `POST /devices/tamper` (public route; the token travels in the body).
#[derive(Clone, Debug)]
pub struct TamperReportRequest {
    pub device_token: String,
    pub kind: String,
}

/// Generic success body.
#[derive(Clone, Debug)]
pub struct SuccessResponse {
    pub message: String,
}

} // verus!
