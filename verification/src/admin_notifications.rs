//! The operator companion's push registration. It is keyed by the authenticated device, taken
//! from the credential rather than the body, so a device registers a push key for itself and
//! nothing else; the master token, which is no device, cannot register at all.

use vstd::prelude::*;
use crate::error::{ApiError, ErrorCode, fails_with, is_api_error};
use crate::flow::Stage;

verus! {

/// `POST /v1/admin/notifications/register` body.
#[derive(Debug)]
pub struct AdminRegisterRequest {
    pub notification_public_key: String,
    pub apns_token: String,
    pub apns_topic: String,
}

/// Always `pending`: the relay handle is minted in the background.
#[derive(Debug)]
pub struct AdminRegisterResponse {
    pub status: &'static str,
}

/// Who the operator credential authenticated.
#[derive(Debug)]
pub enum AdminActor {
    MasterToken,
    Device(String),
}

/// The device a registration is for: the authenticated device itself. The master token belongs
/// to no device and is refused (a token that could register any device's key would be the very
/// redirection this route prevents).
pub fn registering_device(actor: AdminActor) -> (r: Result<String, ApiError>)
    ensures
        match actor {
            AdminActor::Device(id) => r matches Ok(v) && v@ == id@,
            AdminActor::MasterToken => fails_with(
                r,
                ErrorCode::InvalidRequest,
                "notification registration requires a device-signed request, not the master token"@,
            ),
        },
{
    match actor {
        AdminActor::Device(id) => Ok(id),
        AdminActor::MasterToken => Err(
            ApiError::new(
                ErrorCode::InvalidRequest,
                "notification registration requires a device-signed request, not the master token",
            ),
        ),
    }
}

/// Failure storing the registration.
pub fn store_error() -> (e: ApiError)
    ensures
        is_api_error(e, ErrorCode::InternalError, "failed to store the registration"@),
{
    ApiError::new(ErrorCode::InternalError, "failed to store the registration")
}

/// The answer once stored.
pub fn registration_pending() -> (r: AdminRegisterResponse)
    ensures
        r.status@ == "pending"@,
{
    AdminRegisterResponse { status: "pending" }
}

/// The stages of an admin push registration, in order. Background handle minting is queued
/// after the store, only when a notification sender runs.
#[derive(Clone, Copy, Debug, PartialEq, Eq, Structural)]
pub enum AdminRegisterStage {
    Authenticate,
    /// The credential must be a device's.
    RequireDevice,
    /// Notifications must be enabled on this server.
    RequireEnabled,
    ParseBody,
    ValidateFields,
    Store,
}

impl Stage for AdminRegisterStage {
    open spec fn successor(self) -> Option<AdminRegisterStage> {
        match self {
            AdminRegisterStage::Authenticate => Some(AdminRegisterStage::RequireDevice),
            AdminRegisterStage::RequireDevice => Some(AdminRegisterStage::RequireEnabled),
            AdminRegisterStage::RequireEnabled => Some(AdminRegisterStage::ParseBody),
            AdminRegisterStage::ParseBody => Some(AdminRegisterStage::ValidateFields),
            AdminRegisterStage::ValidateFields => Some(AdminRegisterStage::Store),
            AdminRegisterStage::Store => None,
        }
    }

    fn following(&self) -> (r: Option<AdminRegisterStage>) {
        match self {
            AdminRegisterStage::Authenticate => Some(AdminRegisterStage::RequireDevice),
            AdminRegisterStage::RequireDevice => Some(AdminRegisterStage::RequireEnabled),
            AdminRegisterStage::RequireEnabled => Some(AdminRegisterStage::ParseBody),
            AdminRegisterStage::ParseBody => Some(AdminRegisterStage::ValidateFields),
            AdminRegisterStage::ValidateFields => Some(AdminRegisterStage::Store),
            AdminRegisterStage::Store => None,
        }
    }
}

} // verus!
