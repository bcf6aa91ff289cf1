//! Request-level errors.
use vstd::prelude::*;

verus! {

/// Matrix error codes.
#[derive(Debug, Clone, Copy, PartialEq, Eq, Structural)]
pub enum ErrCode {
    /// The notification json is malformed
    BadJson,
    /// Fcm notification building/sending failure
    FcmFailed,
    /// Fcm Auth failure
    FcmAuthFailed,
    /// APNS Private Key not found
    APNSPrivateKeyNotFound,
    /// APNS Auth failure
    APNSAuthFailed,
    /// APNS notification sending failed
    APNSFailed,
    /// APNS not configured
    APNSNotConfigured,
}

impl ErrCode {
    /// The code as it appears in an error response.
    pub fn as_str(&self) -> (r: &'static str)
        ensures
            *self == ErrCode::BadJson ==> r@ == "BAD_JSON"@,
            *self == ErrCode::FcmFailed ==> r@ == "FCM_FAILED"@,
            *self == ErrCode::FcmAuthFailed ==> r@ == "FCM_AUTH_FAILED"@,
            *self == ErrCode::APNSPrivateKeyNotFound ==> r@ == "APNS_PRIVATE_KEY_NOT_FOUND"@,
            *self == ErrCode::APNSAuthFailed ==> r@ == "APNS_AUTH_FAILED"@,
            *self == ErrCode::APNSFailed ==> r@ == "APNS_FAILED"@,
            *self == ErrCode::APNSNotConfigured ==> r@ == "APNS_NOT_CONFIGURED"@,
    {
        match self {
            ErrCode::BadJson => "BAD_JSON",
            ErrCode::FcmFailed => "FCM_FAILED",
            ErrCode::FcmAuthFailed => "FCM_AUTH_FAILED",
            ErrCode::APNSPrivateKeyNotFound => "APNS_PRIVATE_KEY_NOT_FOUND",
            ErrCode::APNSAuthFailed => "APNS_AUTH_FAILED",
            ErrCode::APNSFailed => "APNS_FAILED",
            ErrCode::APNSNotConfigured => "APNS_NOT_CONFIGURED",
        }
    }
}

/// Matrix error.
#[derive(Debug, Clone)]
pub struct HedwigError {
    /// The error text
    pub error: String,
    /// Matrix-formatted error code
    pub errcode: ErrCode,
}

impl HedwigError {
    /// A malformed-request error with the given message.
    pub fn bad_json(message: String) -> (r: HedwigError)
        ensures
            r.error == message,
            r.errcode == ErrCode::BadJson,
    {
        HedwigError { error: message, errcode: ErrCode::BadJson }
    }

    /// The error for a failed exchange with the Android-family provider.
    pub fn fcm_failed() -> (r: HedwigError)
        ensures
            r.error@ == "Something went wrong while trying to interact with fcm"@,
            r.errcode == ErrCode::FcmFailed,
    {
        HedwigError {
            error: String::from_str("Something went wrong while trying to interact with fcm"),
            errcode: ErrCode::FcmFailed,
        }
    }

    /// The error for a failed authentication with the Android-family
    /// provider.
    pub fn fcm_auth_failed() -> (r: HedwigError)
        ensures
            r.error@ == "Failed to authenticate with push service!"@,
            r.errcode == ErrCode::FcmAuthFailed,
    {
        HedwigError {
            error: String::from_str("Failed to authenticate with push service!"),
            errcode: ErrCode::FcmAuthFailed,
        }
    }

    /// The error for a delivery that the Apple provider refused or failed,
    /// with its reason.
    pub fn apns_failed(reason: String) -> (r: HedwigError)
        ensures
            r.error == reason,
            r.errcode == ErrCode::APNSFailed,
    {
        HedwigError { error: reason, errcode: ErrCode::APNSFailed }
    }
}

} // verus!
