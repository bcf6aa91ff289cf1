//! The notification request, its devices, and the stripped copy of a
//! notification that data messages carry.
use crate::text::{clone_opt, decimal, ends_with, has_suffix, join, owned, u16_to_decimal};
use vstd::prelude::*;

verus! {

/// The notification priority.
#[derive(Debug, Clone, Copy, PartialEq, Eq, Structural)]
pub enum Priority {
    /// Low priority
    Low,
    /// High priority
    High,
}

/// Notification counts.
#[derive(Debug, Clone, Copy, PartialEq, Eq, Structural)]
pub struct Counts {
    /// Unread notifications
    pub unread: Option<u16>,
    /// Missed calls
    pub missed_calls: Option<u16>,
}

/// Pusher-specific device data.
#[derive(Debug, Clone)]
pub struct Data {
    /// The data message format the device asks for, if any.
    pub data_message: Option<String>,
}

/// A provider that a device may ask to be reached through.
#[derive(Debug, Clone, Copy, PartialEq, Eq, Structural)]
pub enum PushProvider {
    /// The Android-family provider, which also relays to Apple devices.
    Fcm,
    /// The Apple provider, reached directly.
    Apns,
}

/// The device a notification is sent to.
#[derive(Debug, Clone)]
pub struct Device {
    /// ID of the application
    pub app_id: String,
    /// Push key
    pub pushkey: String,
    /// Timestamp of the last push key update
    pub pushkey_ts: Option<u64>,
    /// Pusher-specific data
    pub data: Option<Data>,
    /// The presentation tweaks, as JSON text.
    pub tweaks: Option<String>,
    /// The provider this device explicitly asks for, if any.
    pub notify_via: Option<PushProvider>,
    /// This device as a JSON object, as the submitting server sent it.
    pub json: String,
}

/// What kind of data message should be sent (if any).
#[derive(Debug, Clone, Copy, PartialEq, Eq, Structural)]
pub enum DataMessageType {
    /// No data message
    Generic,
    /// Android data message
    Android,
    /// Apple data message
    Ios,
}

/// The device classes that delivery counters are tagged with.
#[derive(Debug, Clone, Copy, PartialEq, Eq, Structural)]
pub enum DeviceType {
    /// A device that asks for data messages through the legacy app id suffix.
    AndroidLegacy,
    /// A device that asks for Android data messages.
    Android,
    /// A device that asks for Apple data messages.
    Ios,
    /// A device that takes generic notifications.
    Generic,
}

/// The legacy app id suffix of data-message devices.
pub open spec fn legacy_suffix() -> Seq<char> {
    ".data_message"@
}

impl DataMessageType {
    /// The kind named by a device's `data_message` field.
    pub open spec fn from_name(name: Option<Seq<char>>) -> DataMessageType {
        match name {
            Some(m) => if m == "android"@ {
                DataMessageType::Android
            } else if m == "ios"@ {
                DataMessageType::Ios
            } else {
                DataMessageType::Generic
            },
            None => DataMessageType::Generic,
        }
    }
}

impl DeviceType {
    /// The counter tag of this device class.
    pub fn label(&self) -> (r: &'static str)
        ensures
            *self == DeviceType::AndroidLegacy ==> r@ == "AndroidLegacy"@,
            *self == DeviceType::Android ==> r@ == "Android"@,
            *self == DeviceType::Ios ==> r@ == "Ios"@,
            *self == DeviceType::Generic ==> r@ == "None"@,
    {
        match self {
            DeviceType::AndroidLegacy => "AndroidLegacy",
            DeviceType::Android => "Android",
            DeviceType::Ios => "Ios",
            DeviceType::Generic => "None",
        }
    }
}

impl Device {
    /// The `data_message` field of the device data, if any.
    pub open spec fn data_message_name(&self) -> Option<Seq<char>> {
        match self.data {
            Some(d) => match d.data_message {
                Some(m) => Some(m@),
                None => None,
            },
            None => None,
        }
    }

    /// The app id carries the legacy data-message suffix.
    pub open spec fn is_legacy_data_message(&self) -> bool {
        has_suffix(self.app_id@, legacy_suffix())
    }

    /// What kind of data message the device wants: the legacy suffix asks
    /// for Android ones, else the `data_message` field decides.
    pub open spec fn data_message_type_spec(&self) -> DataMessageType {
        if self.is_legacy_data_message() {
            DataMessageType::Android
        } else {
            DataMessageType::from_name(self.data_message_name())
        }
    }

    /// The device class that delivery counters are tagged with.
    pub open spec fn device_type_spec(&self) -> DeviceType {
        if self.is_legacy_data_message() {
            DeviceType::AndroidLegacy
        } else {
            match self.data_message_type_spec() {
                DataMessageType::Android => DeviceType::Android,
                DataMessageType::Ios => DeviceType::Ios,
                DataMessageType::Generic => DeviceType::Generic,
            }
        }
    }

    /// Whether the app id carries the legacy data-message suffix.
    pub fn is_legacy(&self) -> (r: bool)
        ensures
            r == self.is_legacy_data_message(),
    {
        ends_with(self.app_id.as_str(), ".data_message")
    }

    /// Returns what kind of data message is wanted (if any).
    pub fn data_message_type(&self) -> (r: DataMessageType)
        ensures
            r == self.data_message_type_spec(),
    {
        if self.is_legacy() {
            return DataMessageType::Android;
        }
        match &self.data {
            Some(d) => match &d.data_message {
                Some(m) => {
                    if *m == owned("android") {
                        DataMessageType::Android
                    } else if *m == owned("ios") {
                        DataMessageType::Ios
                    } else {
                        DataMessageType::Generic
                    }
                },
                None => DataMessageType::Generic,
            },
            None => DataMessageType::Generic,
        }
    }

    /// The device class that delivery counters are tagged with.
    pub fn device_type(&self) -> (r: DeviceType)
        ensures
            r == self.device_type_spec(),
    {
        if self.is_legacy() {
            DeviceType::AndroidLegacy
        } else {
            match self.data_message_type() {
                DataMessageType::Android => DeviceType::Android,
                DataMessageType::Ios => DeviceType::Ios,
                DataMessageType::Generic => DeviceType::Generic,
            }
        }
    }
}

/// The notification data.
#[derive(Debug, Clone)]
pub struct Notification {
    /// The Matrix event ID
    pub event_id: Option<String>,
    /// The Matrix room ID
    pub room_id: Option<String>,
    /// The event type
    pub event_type: Option<String>,
    /// The sender of the event
    pub sender: Option<String>,
    /// The sender display name
    pub sender_display_name: Option<String>,
    /// The name of the room in which the event occurred.
    pub room_name: Option<String>,
    /// An alias to display for the room in which the event occurred.
    pub room_alias: Option<String>,
    /// The priority of the notification. If omitted, high is assumed.
    pub prio: Option<Priority>,
    /// The current number of unacknowledged communications for the
    /// recipient user.
    pub counts: Option<Counts>,
    /// The content field of the event, as JSON text, if present.
    pub content: Option<String>,
    /// The devices that the notification should be sent to.
    pub devices: Vec<Device>,
    /// The ciphertext of an encrypted push payload
    pub ciphertext: Option<String>,
    /// The ephemeral key of an encrypted push payload
    pub ephemeral: Option<String>,
    /// The mac of an encrypted push payload
    pub mac: Option<String>,
    /// Whether the receiving user is the subject of a member event.
    pub user_is_target: Option<bool>,
}

/// The notification request body.
#[derive(Debug, Clone)]
pub struct NotificationRequest {
    /// The actual notification
    pub notification: Notification,
}

/// The notification data pushed to a data-message device: a copy of the
/// notification scoped to that one device, with the structured fields as
/// JSON text.
#[derive(Debug, Clone)]
pub struct NotificationData {
    /// The Matrix event ID
    pub event_id: Option<String>,
    /// The Matrix room ID
    pub room_id: Option<String>,
    /// The event type
    pub event_type: Option<String>,
    /// The sender of the event
    pub sender: Option<String>,
    /// The sender display name
    pub sender_display_name: Option<String>,
    /// The name of the room in which the event occurred.
    pub room_name: Option<String>,
    /// An alias to display for the room in which the event occurred.
    pub room_alias: Option<String>,
    /// The priority, as JSON text.
    pub prio: String,
    /// The counts, as JSON text.
    pub counts: String,
    /// The event content, as JSON text.
    pub content: String,
    /// The one device this copy is for, as a JSON array.
    pub devices: String,
    /// The ciphertext of an encrypted push payload
    pub ciphertext: Option<String>,
    /// The ephemeral key of an encrypted push payload
    pub ephemeral: Option<String>,
    /// The mac of an encrypted push payload
    pub mac: Option<String>,
    /// Whether the receiving user is the subject of a member event, as text.
    pub user_is_target: Option<String>,
}

/// Response from the push gateway.
#[derive(Debug, Clone)]
pub struct PushGatewayResponse {
    /// The push keys of the rejected devices, in input order.
    pub rejected: Vec<String>,
}

/// JSON text of an optional count.
pub open spec fn count_json(c: Option<u16>) -> Seq<char> {
    match c {
        Some(n) => decimal(n as nat),
        None => "null"@,
    }
}

/// JSON text of optional counts.
pub open spec fn counts_json(c: Option<Counts>) -> Seq<char> {
    match c {
        Some(c) => "{\"unread\":"@ + count_json(c.unread) + ",\"missed_calls\":"@ + count_json(
            c.missed_calls,
        ) + "}"@,
        None => "null"@,
    }
}

/// JSON text of an optional priority.
pub open spec fn prio_json(p: Option<Priority>) -> Seq<char> {
    match p {
        Some(Priority::Low) => "\"low\""@,
        Some(Priority::High) => "\"high\""@,
        None => "null"@,
    }
}

/// JSON text of optional JSON content.
pub open spec fn content_json(c: Option<String>) -> Seq<char> {
    match c {
        Some(s) => s@,
        None => "null"@,
    }
}

/// A JSON array of the one device.
pub open spec fn devices_json(d: Device) -> Seq<char> {
    "["@ + d.json@ + "]"@
}

/// Text of an optional flag.
pub open spec fn flag_text(b: Option<bool>) -> Option<Seq<char>> {
    match b {
        Some(true) => Some("true"@),
        Some(false) => Some("false"@),
        None => None,
    }
}

/// The view of an optional string.
pub open spec fn opt_view(o: Option<String>) -> Option<Seq<char>> {
    match o {
        Some(s) => Some(s@),
        None => None,
    }
}

fn count_to_json(c: Option<u16>) -> (r: String)
    ensures
        r@ == count_json(c),
{
    match c {
        Some(n) => u16_to_decimal(n),
        None => owned("null"),
    }
}

fn counts_to_json(c: Option<Counts>) -> (r: String)
    ensures
        r@ == counts_json(c),
{
    match c {
        Some(c) => {
            let u = count_to_json(c.unread);
            let m = count_to_json(c.missed_calls);
            let a = join("{\"unread\":", u.as_str());
            let b = join(a.as_str(), ",\"missed_calls\":");
            let d = join(b.as_str(), m.as_str());
            join(d.as_str(), "}")
        },
        None => owned("null"),
    }
}

fn prio_to_json(p: Option<Priority>) -> (r: String)
    ensures
        r@ == prio_json(p),
{
    match p {
        Some(Priority::Low) => owned("\"low\""),
        Some(Priority::High) => owned("\"high\""),
        None => owned("null"),
    }
}

fn flag_to_text(b: Option<bool>) -> (r: Option<String>)
    ensures
        opt_view(r) == flag_text(b),
{
    match b {
        Some(true) => Some(owned("true")),
        Some(false) => Some(owned("false")),
        None => None,
    }
}

impl Notification {
    /// The unread count, zero when absent.
    pub open spec fn unread_count_spec(&self) -> u16 {
        match self.counts {
            Some(c) => match c.unread {
                Some(u) => u,
                None => 0,
            },
            None => 0,
        }
    }

    /// The notification carries only an updated badge, nothing to display.
    pub open spec fn is_counts_only_spec(&self) -> bool {
        ||| (self.event_id is None && self.ciphertext is None)
        ||| (self.counts is Some && self.unread_count_spec() == 0)
        ||| (self.counts is Some && self.ciphertext is Some)
    }

    /// The copy of this notification that a data message to `device`
    /// carries.
    pub open spec fn data_spec(&self, device: Device, r: NotificationData) -> bool {
        &&& r.event_id == self.event_id
        &&& r.room_id == self.room_id
        &&& r.event_type == self.event_type
        &&& r.sender == self.sender
        &&& r.sender_display_name == self.sender_display_name
        &&& r.room_name == self.room_name
        &&& r.room_alias == self.room_alias
        &&& r.prio@ == prio_json(self.prio)
        &&& r.counts@ == counts_json(self.counts)
        &&& r.content@ == content_json(self.content)
        &&& r.devices@ == devices_json(device)
        &&& r.ciphertext == self.ciphertext
        &&& r.ephemeral == self.ephemeral
        &&& r.mac == self.mac
        &&& opt_view(r.user_is_target) == flag_text(self.user_is_target)
    }

    /// The unread count, zero when absent.
    pub fn unread_count(&self) -> (r: u16)
        ensures
            r == self.unread_count_spec(),
    {
        match self.counts {
            Some(c) => match c.unread {
                Some(u) => u,
                None => 0,
            },
            None => 0,
        }
    }

    /// Whether the notification carries only an updated badge.
    pub fn is_counts_only(&self) -> (r: bool)
        ensures
            r == self.is_counts_only_spec(),
    {
        (self.event_id.is_none() && self.ciphertext.is_none()) || (self.counts.is_some()
            && self.unread_count() == 0) || (self.counts.is_some() && self.ciphertext.is_some())
    }

    /// The number of target devices.
    pub fn device_count(&self) -> (r: usize)
        ensures
            r == self.devices@.len(),
    {
        self.devices.len()
    }

    /// Returns the data to be attached to a data message for `device`:
    /// only that device is listed, to keep within size limits.
    pub fn data(&self, device: &Device) -> (r: NotificationData)
        ensures
            self.data_spec(*device, r),
    {
        let content = match &self.content {
            Some(c) => c.clone(),
            None => owned("null"),
        };
        let open = join("[", device.json.as_str());
        let devices = join(open.as_str(), "]");
        NotificationData {
            event_id: clone_opt(&self.event_id),
            room_id: clone_opt(&self.room_id),
            event_type: clone_opt(&self.event_type),
            sender: clone_opt(&self.sender),
            sender_display_name: clone_opt(&self.sender_display_name),
            room_name: clone_opt(&self.room_name),
            room_alias: clone_opt(&self.room_alias),
            prio: prio_to_json(self.prio),
            counts: counts_to_json(self.counts),
            content,
            devices,
            ciphertext: clone_opt(&self.ciphertext),
            ephemeral: clone_opt(&self.ephemeral),
            mac: clone_opt(&self.mac),
            user_is_target: flag_to_text(self.user_is_target),
        }
    }
}

} // verus!
