//! Gateway settings, loaded once and read-only afterwards.
use crate::text::{lower_of, to_lowercase};
use vstd::prelude::*;

verus! {

/// The `apns-push-type` values that the gateway may be configured with.
#[derive(Debug, Clone, Copy, PartialEq, Eq, Structural)]
pub enum ApnsPushType {
    /// A visible alert.
    Alert,
    /// A background update.
    Background,
}

/// The push type named by an already lower-cased name.
pub open spec fn push_type_named(lower: Seq<char>) -> Option<ApnsPushType> {
    if lower == "alert"@ {
        Some(ApnsPushType::Alert)
    } else if lower == "background"@ {
        Some(ApnsPushType::Background)
    } else {
        None
    }
}

impl ApnsPushType {
    /// The push type named by `lower`, which is already lower case.
    pub fn from_lowercase(lower: &str) -> (r: Option<ApnsPushType>)
        ensures
            r == push_type_named(lower@),
    {
        let l = String::from_str(lower);
        if l == String::from_str("alert") {
            Some(ApnsPushType::Alert)
        } else if l == String::from_str("background") {
            Some(ApnsPushType::Background)
        } else {
            None
        }
    }

    /// Parses a configured push type, ignoring case; `None` for a name
    /// that is not supported.
    pub fn parse(name: &str) -> (r: Option<ApnsPushType>)
        ensures
            r == push_type_named(lower_of(name@)),
    {
        let lower = to_lowercase(name);
        ApnsPushType::from_lowercase(lower.as_str())
    }

    /// The header value of this push type.
    pub fn as_str(&self) -> (r: &'static str)
        ensures
            *self == ApnsPushType::Alert ==> r@ == "alert"@,
            *self == ApnsPushType::Background ==> r@ == "background"@,
    {
        match self {
            ApnsPushType::Alert => "alert",
            ApnsPushType::Background => "background",
        }
    }
}

/// Default length limit for notification request bodies, in bytes.
pub const DEFAULT_NOTIFICATION_REQUEST_BODY_SIZE_LIMIT: u64 = 15000;

/// Default ceiling of the dispatch jitter, in milliseconds.
pub const DEFAULT_MAX_JITTER_MILLIS: u64 = 2000;

/// Gateway configuration.
#[derive(Debug, Clone)]
pub struct Hedwig {
    /// Application ID; device app ids must start with it.
    pub app_id: String,
    /// How many times a failed push is retried.
    pub push_max_retries: u32,
    /// The notification title; `<count>` is replaced by the unread count.
    pub notification_title: String,
    /// The notification body.
    pub notification_body: String,
    /// The sound played with a notification.
    pub notification_sound: String,
    /// The Android notification icon.
    pub notification_icon: String,
    /// The Android notification tag.
    pub notification_tag: String,
    /// The action triggered by a click on the notification.
    pub notification_click_action: String,
    /// The Android notification channel.
    pub fcm_notification_android_channel_id: String,
    /// The APNs push type header relayed through the Android-family provider.
    pub apns_push_type: ApnsPushType,
    /// Largest accepted notification request body, in bytes.
    pub notification_request_body_size_limit: u64,
    /// Ceiling of the dispatch jitter, in milliseconds; zero disables it.
    pub max_jitter_millis: u64,
}

/// Log settings.
#[derive(Debug, Clone)]
pub struct Log {
    /// Log level (DEBUG, INFO, ERROR etc.)
    pub level: String,
}

/// Main settings.
#[derive(Debug, Clone)]
pub struct Settings {
    /// Log settings
    pub log: Log,
    /// Gateway settings
    pub hedwig: Hedwig,
}

} // verus!
