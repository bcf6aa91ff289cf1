//! Provider selection and payload shaping: pure, deterministic, no I/O.
use crate::models::{
    opt_view, DataMessageType, Device, Notification, NotificationData, PushProvider,
};
use crate::settings::{ApnsPushType, Hedwig};
use crate::text::{decimal, has_prefix, replace, replace_all, starts_with, u16_to_decimal};
use vstd::prelude::*;

verus! {

/// A visible title and body.
#[derive(Debug, Clone)]
pub struct Alert {
    /// The title.
    pub title: String,
    /// The body.
    pub body: String,
}

/// How Android devices present a visible notification.
#[derive(Debug, Clone)]
pub struct AndroidNotification {
    /// The notification channel.
    pub channel_id: String,
    /// The icon.
    pub icon: String,
    /// The sound.
    pub sound: String,
    /// The tag.
    pub tag: String,
    /// The action triggered by a click.
    pub click_action: String,
}

/// Android-specific delivery options.
#[derive(Debug, Clone)]
pub struct AndroidConfig {
    /// The visible notification layer, if any.
    pub notification: Option<AndroidNotification>,
    /// Whether delivery is allowed before the device is unlocked.
    pub direct_boot_ok: bool,
    /// Whether the message is sent with high priority.
    pub high_priority: bool,
}

/// Apple-specific delivery options relayed through the Android-family
/// provider.
#[derive(Debug, Clone)]
pub struct ApnsConfig {
    /// The `apns-priority` header: 5 for background, 10 for alerts.
    pub priority: u8,
    /// The `apns-push-type` header.
    pub push_type: ApnsPushType,
    /// The badge.
    pub badge: u16,
    /// The sound.
    pub sound: String,
    /// Whether a notification service extension may modify the content.
    pub mutable_content: bool,
}

/// A message for the Android-family provider.
#[derive(Debug, Clone)]
pub struct FcmMessage {
    /// The registration token of the device.
    pub token: String,
    /// The visible layer, if any.
    pub notification: Option<Alert>,
    /// The data layer, if any.
    pub data: Option<NotificationData>,
    /// Android options, if any.
    pub android: Option<AndroidConfig>,
    /// Apple options, if any.
    pub apns: Option<ApnsConfig>,
}

/// A native message for the Apple provider.
#[derive(Debug, Clone)]
pub struct ApnsMessage {
    /// The device token.
    pub device_token: String,
    /// The visible title and body, if any.
    pub alert: Option<Alert>,
    /// The badge.
    pub badge: u32,
    /// The sound.
    pub sound: String,
    /// Whether a notification service extension may modify the content.
    pub mutable_content: bool,
}

/// What is handed to a provider's sender.
#[derive(Debug, Clone)]
pub enum ProviderPayload {
    /// For the Android-family provider.
    Fcm(FcmMessage),
    /// For the Apple provider.
    Apns(ApnsMessage),
}

/// The payload shapes carried by the Android-family provider.
#[derive(Debug, Clone, Copy, PartialEq, Eq, Structural)]
pub enum PayloadShape {
    /// A data message for Android.
    AndroidData,
    /// A data-only message for Apple devices.
    AppleData,
    /// A generic notification.
    Generic,
}

/// Where a device's notification goes.
#[derive(Debug, Clone, Copy, PartialEq, Eq, Structural)]
pub enum Route {
    /// The app id does not belong to this gateway: no delivery.
    InvalidAppId,
    /// The Android-family provider, with the given shape.
    Fcm(PayloadShape),
    /// The Apple provider, with a native payload.
    Apns,
}

/// The routing decision, first match wins: an app id that does not start
/// with the configured one is invalid; the data-message kind picks the data
/// shapes; a generic device goes to the Apple provider only on request.
pub open spec fn route_spec(device: Device, settings: Hedwig) -> Route {
    if !has_prefix(device.app_id@, settings.app_id@) {
        Route::InvalidAppId
    } else {
        match device.data_message_type_spec() {
            DataMessageType::Android => Route::Fcm(PayloadShape::AndroidData),
            DataMessageType::Ios => Route::Fcm(PayloadShape::AppleData),
            DataMessageType::Generic => if device.notify_via == Some(PushProvider::Apns) {
                Route::Apns
            } else {
                Route::Fcm(PayloadShape::Generic)
            },
        }
    }
}

/// Picks the provider and payload shape for a device.
pub fn route(device: &Device, settings: &Hedwig) -> (r: Route)
    ensures
        r == route_spec(*device, *settings),
{
    if !starts_with(device.app_id.as_str(), settings.app_id.as_str()) {
        return Route::InvalidAppId;
    }
    match device.data_message_type() {
        DataMessageType::Android => Route::Fcm(PayloadShape::AndroidData),
        DataMessageType::Ios => Route::Fcm(PayloadShape::AppleData),
        DataMessageType::Generic => {
            if device.notify_via == Some(PushProvider::Apns) {
                Route::Apns
            } else {
                Route::Fcm(PayloadShape::Generic)
            }
        },
    }
}

/// The title: the template with each `<count>` replaced by the unread count.
pub open spec fn title_spec(n: Notification, s: Hedwig) -> Seq<char> {
    replace_all(s.notification_title@, "<count>"@, decimal(n.unread_count_spec() as nat))
}

/// The visible layer: none for a counts-only notification, else the title
/// and body.
pub open spec fn alert_spec(n: Notification, s: Hedwig, a: Option<Alert>) -> bool {
    if n.is_counts_only_spec() {
        a is None
    } else {
        a matches Some(a) && a.title@ == title_spec(n, s) && a.body@ == s.notification_body@
    }
}

/// The Android visible-notification options, taken from the settings.
pub open spec fn android_notification_spec(s: Hedwig, a: AndroidNotification) -> bool {
    &&& a.channel_id@ == s.fcm_notification_android_channel_id@
    &&& a.icon@ == s.notification_icon@
    &&& a.sound@ == s.notification_sound@
    &&& a.tag@ == s.notification_tag@
    &&& a.click_action@ == s.notification_click_action@
}

/// The Apple options relayed through the Android-family provider.
pub open spec fn apns_config_spec(
    n: Notification,
    s: Hedwig,
    c: ApnsConfig,
    priority: u8,
    mutable_content: bool,
) -> bool {
    &&& c.priority == priority
    &&& c.push_type == s.apns_push_type
    &&& c.badge == n.unread_count_spec()
    &&& c.sound@ == s.notification_sound@
    &&& c.mutable_content == mutable_content
}

/// The Android options: never before unlock, always high priority, with the
/// visible layer where the shape has one.
pub open spec fn android_config_spec(s: Hedwig, c: AndroidConfig, visible: bool) -> bool {
    &&& !c.direct_boot_ok
    &&& c.high_priority
    &&& if visible {
        c.notification matches Some(a) && android_notification_spec(s, a)
    } else {
        c.notification is None
    }
}

/// The message for the Android-family provider, by shape.
pub open spec fn fcm_message_spec(
    n: Notification,
    d: Device,
    s: Hedwig,
    shape: PayloadShape,
    m: FcmMessage,
) -> bool {
    &&& m.token@ == d.pushkey@
    &&& match shape {
        PayloadShape::AndroidData => {
            &&& m.notification is None
            &&& m.data matches Some(data) && n.data_spec(d, data)
            &&& m.android matches Some(c) && android_config_spec(s, c, false)
            &&& m.apns is None
        },
        PayloadShape::AppleData => {
            &&& m.notification is None
            &&& m.data matches Some(data) && n.data_spec(d, data)
            &&& m.android is None
            &&& m.apns matches Some(c) && apns_config_spec(n, s, c, 5, true)
        },
        PayloadShape::Generic => {
            &&& alert_spec(n, s, m.notification)
            &&& m.data is None
            &&& m.android matches Some(c) && android_config_spec(s, c, true)
            &&& m.apns matches Some(c) && apns_config_spec(
                n,
                s,
                c,
                if n.is_counts_only_spec() {
                    5
                } else {
                    10
                },
                false,
            )
        },
    }
}

/// The native message for the Apple provider.
pub open spec fn apns_message_spec(n: Notification, d: Device, s: Hedwig, m: ApnsMessage) -> bool {
    &&& m.device_token@ == d.pushkey@
    &&& alert_spec(n, s, m.alert)
    &&& m.badge == n.unread_count_spec() as u32
    &&& m.sound@ == s.notification_sound@
    &&& m.mutable_content
}

/// `p` is the payload for notification `n` to device `d` under settings
/// `s`, for a device whose route is valid.
pub open spec fn payload_spec(n: Notification, d: Device, s: Hedwig, p: ProviderPayload) -> bool {
    match route_spec(d, s) {
        Route::InvalidAppId => false,
        Route::Fcm(shape) => p matches ProviderPayload::Fcm(m) && fcm_message_spec(n, d, s, shape, m),
        Route::Apns => p matches ProviderPayload::Apns(m) && apns_message_spec(n, d, s, m),
    }
}

fn title(n: &Notification, s: &Hedwig) -> (r: String)
    ensures
        r@ == title_spec(*n, *s),
{
    proof {
        reveal_strlit("<count>");
    }
    let count = u16_to_decimal(n.unread_count());
    replace(s.notification_title.as_str(), "<count>", count.as_str())
}

fn alert(n: &Notification, s: &Hedwig) -> (r: Option<Alert>)
    ensures
        alert_spec(*n, *s, r),
{
    if n.is_counts_only() {
        None
    } else {
        Some(Alert { title: title(n, s), body: s.notification_body.clone() })
    }
}

fn android_config(s: &Hedwig, visible: bool) -> (r: AndroidConfig)
    ensures
        android_config_spec(*s, r, visible),
{
    let notification = if visible {
        Some(
            AndroidNotification {
                channel_id: s.fcm_notification_android_channel_id.clone(),
                icon: s.notification_icon.clone(),
                sound: s.notification_sound.clone(),
                tag: s.notification_tag.clone(),
                click_action: s.notification_click_action.clone(),
            },
        )
    } else {
        None
    };
    AndroidConfig { notification, direct_boot_ok: false, high_priority: true }
}

fn apns_config(n: &Notification, s: &Hedwig, priority: u8, mutable_content: bool) -> (r:
    ApnsConfig)
    ensures
        apns_config_spec(*n, *s, r, priority, mutable_content),
{
    ApnsConfig {
        priority,
        push_type: s.apns_push_type,
        badge: n.unread_count(),
        sound: s.notification_sound.clone(),
        mutable_content,
    }
}

/// Builds the message for the Android-family provider in the given shape.
pub fn fcm_message(n: &Notification, d: &Device, s: &Hedwig, shape: PayloadShape) -> (r:
    FcmMessage)
    ensures
        fcm_message_spec(*n, *d, *s, shape, r),
{
    let token = d.pushkey.clone();
    match shape {
        PayloadShape::AndroidData => FcmMessage {
            token,
            notification: None,
            data: Some(n.data(d)),
            android: Some(android_config(s, false)),
            apns: None,
        },
        PayloadShape::AppleData => FcmMessage {
            token,
            notification: None,
            data: Some(n.data(d)),
            android: None,
            apns: Some(apns_config(n, s, 5, true)),
        },
        PayloadShape::Generic => {
            let priority: u8 = if n.is_counts_only() {
                5
            } else {
                10
            };
            FcmMessage {
                token,
                notification: alert(n, s),
                data: None,
                android: Some(android_config(s, true)),
                apns: Some(apns_config(n, s, priority, false)),
            }
        },
    }
}

/// Builds the native message for the Apple provider.
pub fn apns_message(n: &Notification, d: &Device, s: &Hedwig) -> (r: ApnsMessage)
    ensures
        apns_message_spec(*n, *d, *s, r),
{
    ApnsMessage {
        device_token: d.pushkey.clone(),
        alert: alert(n, s),
        badge: n.unread_count() as u32,
        sound: s.notification_sound.clone(),
        mutable_content: true,
    }
}

/// Routes the device and builds its payload; `None` exactly when the app
/// id is invalid.
pub fn build_payload(n: &Notification, d: &Device, s: &Hedwig) -> (r: Option<ProviderPayload>)
    ensures
        r is None <==> route_spec(*d, *s) == Route::InvalidAppId,
        r matches Some(p) ==> payload_spec(*n, *d, *s, p),
{
    match route(d, s) {
        Route::InvalidAppId => None,
        Route::Fcm(shape) => Some(ProviderPayload::Fcm(fcm_message(n, d, s, shape))),
        Route::Apns => Some(ProviderPayload::Apns(apns_message(n, d, s))),
    }
}

/// Two data layers hold the same text.
pub open spec fn same_data(a: NotificationData, b: NotificationData) -> bool {
    &&& opt_view(a.event_id) == opt_view(b.event_id)
    &&& opt_view(a.room_id) == opt_view(b.room_id)
    &&& opt_view(a.event_type) == opt_view(b.event_type)
    &&& opt_view(a.sender) == opt_view(b.sender)
    &&& opt_view(a.sender_display_name) == opt_view(b.sender_display_name)
    &&& opt_view(a.room_name) == opt_view(b.room_name)
    &&& opt_view(a.room_alias) == opt_view(b.room_alias)
    &&& a.prio@ == b.prio@
    &&& a.counts@ == b.counts@
    &&& a.content@ == b.content@
    &&& a.devices@ == b.devices@
    &&& opt_view(a.ciphertext) == opt_view(b.ciphertext)
    &&& opt_view(a.ephemeral) == opt_view(b.ephemeral)
    &&& opt_view(a.mac) == opt_view(b.mac)
    &&& opt_view(a.user_is_target) == opt_view(b.user_is_target)
}

/// Two optional alerts hold the same text.
pub open spec fn same_alert(a: Option<Alert>, b: Option<Alert>) -> bool {
    match (a, b) {
        (Some(x), Some(y)) => x.title@ == y.title@ && x.body@ == y.body@,
        (None, None) => true,
        _ => false,
    }
}

/// Two optional Android configurations are the same.
pub open spec fn same_android(a: Option<AndroidConfig>, b: Option<AndroidConfig>) -> bool {
    match (a, b) {
        (Some(x), Some(y)) => {
            &&& x.direct_boot_ok == y.direct_boot_ok
            &&& x.high_priority == y.high_priority
            &&& match (x.notification, y.notification) {
                (Some(p), Some(q)) => {
                    &&& p.channel_id@ == q.channel_id@
                    &&& p.icon@ == q.icon@
                    &&& p.sound@ == q.sound@
                    &&& p.tag@ == q.tag@
                    &&& p.click_action@ == q.click_action@
                },
                (None, None) => true,
                _ => false,
            }
        },
        (None, None) => true,
        _ => false,
    }
}

/// Two optional Apple configurations are the same.
pub open spec fn same_apns(a: Option<ApnsConfig>, b: Option<ApnsConfig>) -> bool {
    match (a, b) {
        (Some(x), Some(y)) => {
            &&& x.priority == y.priority
            &&& x.push_type == y.push_type
            &&& x.badge == y.badge
            &&& x.sound@ == y.sound@
            &&& x.mutable_content == y.mutable_content
        },
        (None, None) => true,
        _ => false,
    }
}

/// Two payloads are the same, field by field and character by character.
pub open spec fn same_payload(a: ProviderPayload, b: ProviderPayload) -> bool {
    match (a, b) {
        (ProviderPayload::Fcm(x), ProviderPayload::Fcm(y)) => {
            &&& x.token@ == y.token@
            &&& same_alert(x.notification, y.notification)
            &&& match (x.data, y.data) {
                (Some(p), Some(q)) => same_data(p, q),
                (None, None) => true,
                _ => false,
            }
            &&& same_android(x.android, y.android)
            &&& same_apns(x.apns, y.apns)
        },
        (ProviderPayload::Apns(x), ProviderPayload::Apns(y)) => {
            &&& x.device_token@ == y.device_token@
            &&& same_alert(x.alert, y.alert)
            &&& x.badge == y.badge
            &&& x.sound@ == y.sound@
            &&& x.mutable_content == y.mutable_content
        },
        _ => false,
    }
}

/// Payload building is deterministic: the same notification, device and
/// settings always give the same payload.
pub proof fn lemma_payload_deterministic(
    n: Notification,
    d: Device,
    s: Hedwig,
    first: ProviderPayload,
    second: ProviderPayload,
)
    requires
        payload_spec(n, d, s, first),
        payload_spec(n, d, s, second),
    ensures
        same_payload(first, second),
{
}

} // verus!
