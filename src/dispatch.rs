//! The per-device delivery state machine and the aggregation of device
//! outcomes into one response.
//!
//! The caller drives each device: it checks the app id, hands the payload
//! to the provider's sender, sleeps the backoff that a retry asks for, and
//! feeds each of these back as an event.
use crate::models::{
    legacy_suffix, DataMessageType, Device, Notification, NotificationRequest, PushGatewayResponse,
};
use crate::text::join;
use vstd::prelude::*;

verus! {

/// The backoff before the first retry, in milliseconds.
pub const INITIAL_BACKOFF_MILLIS: u64 = 250;

/// Why a device was rejected.
#[derive(Debug, Clone, Copy, PartialEq, Eq, Structural)]
pub enum RejectReason {
    /// The app id does not belong to this gateway.
    InvalidAppId,
    /// Every allowed attempt failed.
    RetriesExhausted,
}

/// The final result of one device.
#[derive(Debug, Clone, Copy, PartialEq, Eq, Structural)]
pub enum DispatchOutcome {
    /// The provider accepted the push.
    Accepted,
    /// The device was given up on.
    Rejected(RejectReason),
}

/// Where a device's delivery stands.
#[derive(Debug, Clone, Copy, PartialEq, Eq, Structural)]
pub enum DeviceState {
    /// Nothing checked yet.
    Pending,
    /// A send is due; `failures` attempts have failed so far.
    Attempting { failures: u64, backoff_millis: u64 },
    /// The last attempt failed; the next one follows `backoff_millis` later.
    Retrying { failures: u64, backoff_millis: u64 },
    /// Delivered.
    Succeeded,
    /// Given up.
    Rejected(RejectReason),
}

/// What happened to a device.
#[derive(Debug, Clone, Copy, PartialEq, Eq, Structural)]
pub enum DeviceEvent {
    /// The app id check passed (`true`) or failed.
    AppIdChecked(bool),
    /// A send to the provider succeeded (`true`) or failed.
    AttemptFinished(bool),
    /// The backoff sleep is over.
    BackoffElapsed,
}

/// Doubles a backoff, saturating at the largest value.
pub open spec fn doubled(b: u64) -> u64 {
    if b > u64::MAX - b {
        u64::MAX
    } else {
        (b + b) as u64
    }
}

/// The state machine's transition function. Events that do not apply to a
/// state leave it as it is, so terminal states stay terminal.
pub open spec fn next_spec(s: DeviceState, e: DeviceEvent, max_retries: u32) -> DeviceState {
    match (s, e) {
        (DeviceState::Pending, DeviceEvent::AppIdChecked(ok)) => if ok {
            DeviceState::Attempting { failures: 0, backoff_millis: INITIAL_BACKOFF_MILLIS }
        } else {
            DeviceState::Rejected(RejectReason::InvalidAppId)
        },
        (DeviceState::Attempting { failures, backoff_millis }, DeviceEvent::AttemptFinished(ok)) => {
            if ok {
                DeviceState::Succeeded
            } else if failures >= max_retries {
                DeviceState::Rejected(RejectReason::RetriesExhausted)
            } else {
                DeviceState::Retrying { failures: (failures + 1) as u64, backoff_millis }
            }
        },
        (DeviceState::Retrying { failures, backoff_millis }, DeviceEvent::BackoffElapsed) => {
            DeviceState::Attempting { failures, backoff_millis: doubled(backoff_millis) }
        },
        _ => s,
    }
}

/// The outcome of a terminal state.
pub open spec fn outcome_spec(s: DeviceState) -> Option<DispatchOutcome> {
    match s {
        DeviceState::Succeeded => Some(DispatchOutcome::Accepted),
        DeviceState::Rejected(r) => Some(DispatchOutcome::Rejected(r)),
        _ => None,
    }
}

impl DeviceState {
    /// The state is Succeeded or Rejected.
    pub open spec fn is_terminal_spec(self) -> bool {
        self is Succeeded || self is Rejected
    }

    /// The state after event `e`.
    pub fn next(self, e: DeviceEvent, max_retries: u32) -> (r: DeviceState)
        ensures
            r == next_spec(self, e, max_retries),
    {
        match (self, e) {
            (DeviceState::Pending, DeviceEvent::AppIdChecked(ok)) => {
                if ok {
                    DeviceState::Attempting { failures: 0, backoff_millis: INITIAL_BACKOFF_MILLIS }
                } else {
                    DeviceState::Rejected(RejectReason::InvalidAppId)
                }
            },
            (
                DeviceState::Attempting { failures, backoff_millis },
                DeviceEvent::AttemptFinished(ok),
            ) => {
                if ok {
                    DeviceState::Succeeded
                } else if failures >= max_retries as u64 {
                    DeviceState::Rejected(RejectReason::RetriesExhausted)
                } else {
                    DeviceState::Retrying { failures: failures + 1, backoff_millis }
                }
            },
            (DeviceState::Retrying { failures, backoff_millis }, DeviceEvent::BackoffElapsed) => {
                DeviceState::Attempting {
                    failures,
                    backoff_millis: backoff_millis.saturating_add(backoff_millis),
                }
            },
            _ => self,
        }
    }

    /// Whether the state is Succeeded or Rejected.
    pub fn is_terminal(&self) -> (r: bool)
        ensures
            r == self.is_terminal_spec(),
    {
        match self {
            DeviceState::Succeeded | DeviceState::Rejected(_) => true,
            _ => false,
        }
    }

    /// The outcome, once the state is terminal.
    pub fn outcome(&self) -> (r: Option<DispatchOutcome>)
        ensures
            r == outcome_spec(*self),
            r is Some <==> self.is_terminal_spec(),
    {
        match self {
            DeviceState::Succeeded => Some(DispatchOutcome::Accepted),
            DeviceState::Rejected(r) => Some(DispatchOutcome::Rejected(*r)),
            _ => None,
        }
    }
}

/// Runs the attempt loop from `s` on the successive send results: each
/// failure that leaves a retry is followed by its backoff. Stops at a
/// terminal state or when the results run out.
pub open spec fn drive(s: DeviceState, results: Seq<bool>, max_retries: u32) -> DeviceState
    decreases results.len(),
{
    if results.len() == 0 {
        s
    } else if s is Attempting {
        let t = next_spec(s, DeviceEvent::AttemptFinished(results[0]), max_retries);
        drive(next_spec(t, DeviceEvent::BackoffElapsed, max_retries), results.drop_first(), max_retries)
    } else {
        s
    }
}

/// How many of `results` the attempt loop from `s` consumes, that is, how
/// many sends it makes.
pub open spec fn attempts(s: DeviceState, results: Seq<bool>, max_retries: u32) -> nat
    decreases results.len(),
{
    if results.len() == 0 {
        0
    } else if s is Attempting {
        let t = next_spec(s, DeviceEvent::AttemptFinished(results[0]), max_retries);
        1 + attempts(
            next_spec(t, DeviceEvent::BackoffElapsed, max_retries),
            results.drop_first(),
            max_retries,
        )
    } else {
        0
    }
}

/// The state right after a passed app id check.
pub open spec fn first_attempt() -> DeviceState {
    DeviceState::Attempting { failures: 0, backoff_millis: INITIAL_BACKOFF_MILLIS }
}

proof fn lemma_drive_from(f: u64, b: u64, results: Seq<bool>, max_retries: u32)
    requires
        f <= max_retries,
        results.len() >= max_retries + 1 - f,
    ensures
        drive(DeviceState::Attempting { failures: f, backoff_millis: b }, results, max_retries).is_terminal_spec(),
        drive(DeviceState::Attempting { failures: f, backoff_millis: b }, results, max_retries)
            == DeviceState::Succeeded <==> exists|i: int|
            0 <= i < max_retries + 1 - f && #[trigger] results[i],
        drive(DeviceState::Attempting { failures: f, backoff_millis: b }, results, max_retries)
            != DeviceState::Succeeded ==> drive(
            DeviceState::Attempting { failures: f, backoff_millis: b },
            results,
            max_retries,
        ) == DeviceState::Rejected(RejectReason::RetriesExhausted) && attempts(
            DeviceState::Attempting { failures: f, backoff_millis: b },
            results,
            max_retries,
        ) == max_retries + 1 - f,
    decreases max_retries - f,
{
    let s = DeviceState::Attempting { failures: f, backoff_millis: b };
    let rest = results.drop_first();
    if results[0] {
        assert(drive(s, results, max_retries) == drive(DeviceState::Succeeded, rest, max_retries));
        if rest.len() > 0 {
            assert(drive(DeviceState::Succeeded, rest, max_retries) == DeviceState::Succeeded);
        }
    } else if f >= max_retries {
        let r = DeviceState::Rejected(RejectReason::RetriesExhausted);
        assert(drive(s, results, max_retries) == drive(r, rest, max_retries));
        if rest.len() > 0 {
            assert(drive(r, rest, max_retries) == r);
            assert(attempts(r, rest, max_retries) == 0);
        }
        assert forall|i: int| 0 <= i < max_retries + 1 - f implies !#[trigger] results[i] by {
            assert(i == 0);
        }
    } else {
        let n = DeviceState::Attempting { failures: (f + 1) as u64, backoff_millis: doubled(b) };
        assert(drive(s, results, max_retries) == drive(n, rest, max_retries));
        lemma_drive_from((f + 1) as u64, doubled(b), rest, max_retries);
        if exists|i: int| 0 <= i < max_retries + 1 - (f + 1) && #[trigger] rest[i] {
            let i = choose|i: int| 0 <= i < max_retries + 1 - (f + 1) && #[trigger] rest[i];
            assert(results[i + 1]);
        }
        if exists|i: int| 0 <= i < max_retries + 1 - f && #[trigger] results[i] {
            let i = choose|i: int| 0 <= i < max_retries + 1 - f && #[trigger] results[i];
            assert(i != 0);
            assert(rest[i - 1]);
        }
    }
}

/// Every device whose app id passed reaches exactly one terminal state
/// within `max_retries + 1` sends, whatever the sender answers: it is
/// Succeeded if one of those sends succeeded, else Rejected because its
/// retries ran out. A terminal state then never changes.
pub proof fn lemma_one_terminal_state(results: Seq<bool>, max_retries: u32)
    requires
        results.len() >= max_retries + 1,
    ensures
        drive(first_attempt(), results, max_retries).is_terminal_spec(),
        drive(first_attempt(), results, max_retries) == DeviceState::Succeeded <==> exists|i: int|
            0 <= i <= max_retries && #[trigger] results[i],
        drive(first_attempt(), results, max_retries) != DeviceState::Succeeded ==> drive(
            first_attempt(),
            results,
            max_retries,
        ) == DeviceState::Rejected(RejectReason::RetriesExhausted),
        forall|e: DeviceEvent|
            #[trigger] next_spec(drive(first_attempt(), results, max_retries), e, max_retries)
                == drive(first_attempt(), results, max_retries),
{
    lemma_drive_from(0, INITIAL_BACKOFF_MILLIS, results, max_retries);
}

/// A device whose app id is invalid is rejected at once, before any send.
pub proof fn lemma_invalid_app_id_rejected(results: Seq<bool>, max_retries: u32)
    ensures
        next_spec(DeviceState::Pending, DeviceEvent::AppIdChecked(false), max_retries)
            == DeviceState::Rejected(RejectReason::InvalidAppId),
        attempts(
            next_spec(DeviceState::Pending, DeviceEvent::AppIdChecked(false), max_retries),
            results,
            max_retries,
        ) == 0,
{
    let r = DeviceState::Rejected(RejectReason::InvalidAppId);
    if results.len() > 0 {
        assert(attempts(r, results, max_retries) == 0);
    }
}

/// A sender that always fails is called exactly `max_retries + 1` times,
/// after which the device is rejected because its retries ran out.
pub proof fn lemma_permanent_failure(results: Seq<bool>, max_retries: u32)
    requires
        results.len() >= max_retries + 1,
        forall|i: int| 0 <= i < results.len() ==> !#[trigger] results[i],
    ensures
        attempts(first_attempt(), results, max_retries) == max_retries + 1,
        drive(first_attempt(), results, max_retries) == DeviceState::Rejected(
            RejectReason::RetriesExhausted,
        ),
{
    lemma_drive_from(0, INITIAL_BACKOFF_MILLIS, results, max_retries);
}

/// How a notification that reached at least one device is counted.
#[derive(Debug, Clone, Copy, PartialEq, Eq, Structural)]
pub enum NotificationType {
    /// A notification to display.
    Notification,
    /// A data message, which the device renders itself.
    Data,
    /// A notification that only clears or updates the badge.
    Clearing,
}

impl NotificationType {
    /// The counter tag of this type.
    pub fn label(&self) -> (r: &'static str)
        ensures
            *self == NotificationType::Notification ==> r@ == "notification"@,
            *self == NotificationType::Data ==> r@ == "data"@,
            *self == NotificationType::Clearing ==> r@ == "clearing"@,
    {
        match self {
            NotificationType::Notification => "notification",
            NotificationType::Data => "data",
            NotificationType::Clearing => "clearing",
        }
    }
}

/// The type of notification `n` as sent to device `d`: clearing when there
/// is no event, or when a device that is not a data-message device is told
/// of zero unread; else data for a data-message device; else a
/// notification.
pub open spec fn notification_type_spec(n: Notification, d: Device) -> NotificationType {
    let data = d.data_message_type_spec() != DataMessageType::Generic;
    if n.event_id is None || (!data && n.unread_count_spec() == 0) {
        NotificationType::Clearing
    } else if data {
        NotificationType::Data
    } else {
        NotificationType::Notification
    }
}

impl Notification {
    /// The type of this notification as sent to `device`.
    pub fn notification_type(&self, device: &Device) -> (r: NotificationType)
        ensures
            r == notification_type_spec(*self, *device),
    {
        let data = !matches!(device.data_message_type(), DataMessageType::Generic);
        if self.event_id.is_none() || (!data && self.unread_count() == 0) {
            NotificationType::Clearing
        } else if data {
            NotificationType::Data
        } else {
            NotificationType::Notification
        }
    }
}

/// The push keys of the devices whose outcome is a rejection, in device
/// order.
pub open spec fn rejected_keys(devices: Seq<Device>, outcomes: Seq<DispatchOutcome>) -> Seq<String>
    decreases devices.len(),
{
    if devices.len() == 0 {
        seq![]
    } else {
        let k = devices.len() - 1;
        let prev = rejected_keys(devices.take(k), outcomes);
        if outcomes[k] is Rejected {
            prev.push(devices[k].pushkey)
        } else {
            prev
        }
    }
}

/// How many outcomes are accepted.
pub open spec fn count_accepted(outcomes: Seq<DispatchOutcome>) -> nat
    decreases outcomes.len(),
{
    if outcomes.len() == 0 {
        0
    } else {
        count_accepted(outcomes.drop_last()) + if outcomes.last() is Accepted {
            1nat
        } else {
            0nat
        }
    }
}

/// How many outcomes are rejections because retries ran out.
pub open spec fn count_exhausted(outcomes: Seq<DispatchOutcome>) -> nat
    decreases outcomes.len(),
{
    if outcomes.len() == 0 {
        0
    } else {
        count_exhausted(outcomes.drop_last()) + if outcomes.last() == DispatchOutcome::Rejected(
            RejectReason::RetriesExhausted,
        ) {
            1nat
        } else {
            0nat
        }
    }
}

/// What one notification's dispatch amounts to.
#[derive(Debug, Clone)]
pub struct DispatchReport {
    /// The response: the rejected push keys, in device order.
    pub response: PushGatewayResponse,
    /// How many devices accepted the push.
    pub succeeded: u64,
    /// How many devices were rejected because their retries ran out.
    pub failed: u64,
    /// How many devices the notification was for.
    pub device_count: u64,
    /// The notification's type, present when some device accepted it.
    pub notification_type: Option<NotificationType>,
}

/// Aggregates the outcome of each device, given in device order.
pub fn aggregate(n: &Notification, outcomes: &Vec<DispatchOutcome>) -> (r: DispatchReport)
    requires
        outcomes@.len() == n.devices@.len(),
    ensures
        r.response.rejected@ == rejected_keys(n.devices@, outcomes@),
        r.succeeded == count_accepted(outcomes@),
        r.failed == count_exhausted(outcomes@),
        r.device_count == n.devices@.len(),
        r.notification_type is Some <==> count_accepted(outcomes@) > 0,
        r.notification_type matches Some(t) ==> t == notification_type_spec(*n, n.devices@[0]),
{
    let mut rejected: Vec<String> = Vec::new();
    let mut succeeded: u64 = 0;
    let mut failed: u64 = 0;
    let len = n.devices.len();
    let mut i: usize = 0;
    while i < len
        invariant
            len == n.devices@.len(),
            outcomes@.len() == len,
            0 <= i <= len,
            rejected@ == rejected_keys(n.devices@.take(i as int), outcomes@),
            succeeded == count_accepted(outcomes@.take(i as int)),
            failed == count_exhausted(outcomes@.take(i as int)),
            succeeded <= i,
            failed <= i,
        decreases len - i,
    {
        let ghost before = n.devices@.take(i as int);
        assert(n.devices@.take(i + 1).take(i as int) == before);
        assert(outcomes@.take(i + 1).drop_last() == outcomes@.take(i as int));
        match outcomes[i] {
            DispatchOutcome::Accepted => {
                succeeded = succeeded + 1;
            },
            DispatchOutcome::Rejected(reason) => {
                rejected.push(n.devices[i].pushkey.clone());
                if reason == RejectReason::RetriesExhausted {
                    failed = failed + 1;
                }
            },
        }
        i = i + 1;
    }
    assert(n.devices@.take(len as int) == n.devices@);
    assert(outcomes@.take(len as int) == outcomes@);
    let notification_type = if succeeded > 0 {
        Some(n.notification_type(&n.devices[0]))
    } else {
        None
    };
    DispatchReport {
        response: PushGatewayResponse { rejected },
        succeeded,
        failed,
        device_count: len as u64,
        notification_type,
    }
}

/// A device's push key is listed as rejected exactly when that device's
/// outcome is a rejection: each rejected device's key is listed, and each
/// listed key belongs to a rejected device.
pub proof fn lemma_rejected_iff(devices: Seq<Device>, outcomes: Seq<DispatchOutcome>)
    requires
        outcomes.len() == devices.len(),
    ensures
        forall|i: int|
            0 <= i < devices.len() && (#[trigger] outcomes[i]) is Rejected ==> rejected_keys(
                devices,
                outcomes,
            ).contains(devices[i].pushkey),
        forall|k: String|
            #[trigger] rejected_keys(devices, outcomes).contains(k) ==> exists|i: int|
                0 <= i < devices.len() && outcomes[i] is Rejected && #[trigger] devices[i].pushkey
                    == k,
{
    lemma_rejected_keys_prefix(devices, outcomes);
}

proof fn lemma_rejected_keys_prefix(prev: Seq<Device>, outcomes: Seq<DispatchOutcome>)
    requires
        prev.len() <= outcomes.len(),
    ensures
        forall|i: int|
            0 <= i < prev.len() && (#[trigger] outcomes[i]) is Rejected ==> rejected_keys(
                prev,
                outcomes,
            ).contains(prev[i].pushkey),
        forall|k: String|
            #[trigger] rejected_keys(prev, outcomes).contains(k) ==> exists|i: int|
                0 <= i < prev.len() && outcomes[i] is Rejected && #[trigger] prev[i].pushkey == k,
    decreases prev.len(),
{
    if prev.len() > 0 {
        let n = prev.len() - 1;
        let pp = prev.take(n);
        lemma_rejected_keys_prefix(pp, outcomes);
        let r = rejected_keys(prev, outcomes);
        let rp = rejected_keys(pp, outcomes);
        assert forall|i: int|
            0 <= i < prev.len() && (#[trigger] outcomes[i]) is Rejected implies r.contains(
            prev[i].pushkey,
        ) by {
            if i < n {
                assert(pp[i] == prev[i]);
                let j = choose|j: int| 0 <= j < rp.len() && rp[j] == pp[i].pushkey;
                assert(r[j] == rp[j]);
            } else {
                assert(r[r.len() - 1] == prev[i].pushkey);
            }
        }
        assert forall|k: String| #[trigger] r.contains(k) implies exists|i: int|
            0 <= i < prev.len() && outcomes[i] is Rejected && #[trigger] prev[i].pushkey == k by {
            let j = choose|j: int| 0 <= j < r.len() && r[j] == k;
            if j < rp.len() {
                assert(rp[j] == k);
                assert(rp.contains(k));
                let i = choose|i: int|
                    0 <= i < n && outcomes[i] is Rejected && #[trigger] pp[i].pushkey == k;
                assert(prev[i] == pp[i]);
            } else {
                assert(prev[n].pushkey == k);
            }
        }
    }
}

/// The push keys of the devices whose app id is `app_id` itself or
/// `app_id` with the legacy data-message suffix, in device order.
pub open spec fn push_keys_spec(devices: Seq<Device>, app_id: Seq<char>) -> Seq<String>
    decreases devices.len(),
{
    if devices.len() == 0 {
        seq![]
    } else {
        let k = devices.len() - 1;
        let prev = push_keys_spec(devices.take(k), app_id);
        let a = devices[k].app_id@;
        if a == app_id || a == app_id + legacy_suffix() {
            prev.push(devices[k].pushkey)
        } else {
            prev
        }
    }
}

/// A notification together with its first device and the gateway's app id.
#[derive(Debug, Clone, Copy)]
pub struct ProcessedNotification<'a, 'b> {
    /// The notification.
    notification: &'a Notification,
    /// Its first device.
    first_device: &'a Device,
    /// The gateway's app id.
    app_id: &'b str,
}

impl<'a, 'b> ProcessedNotification<'a, 'b> {
    /// The notification.
    pub closed spec fn notification_spec(&self) -> Notification {
        *self.notification
    }

    /// The first device of the notification.
    pub closed spec fn first_device_spec(&self) -> Device {
        *self.first_device
    }

    /// The gateway's app id.
    pub closed spec fn app_id_spec(&self) -> Seq<char> {
        self.app_id@
    }

    /// The notification's type as sent to its first device.
    pub open spec fn type_spec(&self) -> NotificationType {
        notification_type_spec(self.notification_spec(), self.first_device_spec())
    }

    /// Pairs a request with the gateway's app id; `None` when the
    /// notification has no device.
    pub fn process(request: &'a NotificationRequest, app_id: &'b str) -> (r: Option<
        ProcessedNotification<'a, 'b>,
    >)
        ensures
            r is None <==> request.notification.devices@.len() == 0,
            r matches Some(p) ==> p.notification_spec() == request.notification
                && p.first_device_spec() == request.notification.devices@[0] && p.app_id_spec()
                == app_id@,
    {
        if request.notification.devices.len() == 0 {
            return None;
        }
        Some(
            ProcessedNotification {
                notification: &request.notification,
                first_device: &request.notification.devices[0],
                app_id,
            },
        )
    }

    /// The notification.
    pub fn notification(&self) -> (r: &'a Notification)
        ensures
            *r == self.notification_spec(),
    {
        self.notification
    }

    /// Whether the notification only clears: there is no event, or a
    /// first device that is not a data-message device is told of zero
    /// unread.
    pub fn is_clearing(&self) -> (r: bool)
        ensures
            r == (self.type_spec() == NotificationType::Clearing),
    {
        self.notification_type() == NotificationType::Clearing
    }

    /// Whether the first device is a data-message device.
    pub fn is_data_message(&self) -> (r: bool)
        ensures
            r == (self.first_device_spec().data_message_type_spec() != DataMessageType::Generic),
    {
        !matches!(self.first_device.data_message_type(), DataMessageType::Generic)
    }

    /// The notification's type as sent to its first device.
    pub fn notification_type(&self) -> (r: NotificationType)
        ensures
            r == self.type_spec(),
    {
        self.notification.notification_type(self.first_device)
    }

    /// The number of target devices.
    pub fn device_count(&self) -> (r: usize)
        ensures
            r == self.notification_spec().devices@.len(),
    {
        self.notification.devices.len()
    }

    /// The unread count, zero when absent.
    pub fn unread_count(&self) -> (r: u16)
        ensures
            r == self.notification_spec().unread_count_spec(),
    {
        self.notification.unread_count()
    }

    /// The push keys of the devices that belong to the gateway's app id,
    /// directly or through the legacy data-message suffix, in device order.
    pub fn push_keys(&self) -> (r: Vec<String>)
        ensures
            r@ == push_keys_spec(self.notification_spec().devices@, self.app_id_spec()),
    {
        let devices = &self.notification.devices;
        let legacy = join(self.app_id, ".data_message");
        let own = String::from_str(self.app_id);
        let mut keys: Vec<String> = Vec::new();
        let mut i: usize = 0;
        while i < devices.len()
            invariant
                0 <= i <= devices@.len(),
                legacy@ == self.app_id_spec() + legacy_suffix(),
                own@ == self.app_id_spec(),
                keys@ == push_keys_spec(devices@.take(i as int), self.app_id_spec()),
            decreases devices@.len() - i,
        {
            assert(devices@.take(i + 1).take(i as int) == devices@.take(i as int));
            let d = &devices[i];
            if d.app_id == own || d.app_id == legacy {
                keys.push(d.pushkey.clone());
            }
            i = i + 1;
        }
        assert(devices@.take(devices@.len() as int) == devices@);
        keys
    }
}

/// The per-device delivery counters.
#[derive(Debug, Clone, Copy, PartialEq, Eq, Structural)]
pub enum PushCounter {
    /// Counts devices that accepted the push.
    Successful,
    /// Counts devices whose retries ran out.
    Failed,
}

/// The counter that a device outcome increments, if any: a device rejected
/// for its app id counts in neither.
pub open spec fn push_counter_spec(outcome: DispatchOutcome) -> Option<PushCounter> {
    match outcome {
        DispatchOutcome::Accepted => Some(PushCounter::Successful),
        DispatchOutcome::Rejected(RejectReason::RetriesExhausted) => Some(PushCounter::Failed),
        DispatchOutcome::Rejected(RejectReason::InvalidAppId) => None,
    }
}

impl PushCounter {
    /// The counter that `outcome` increments, if any.
    pub fn for_outcome(outcome: DispatchOutcome) -> (r: Option<PushCounter>)
        ensures
            r == push_counter_spec(outcome),
    {
        match outcome {
            DispatchOutcome::Accepted => Some(PushCounter::Successful),
            DispatchOutcome::Rejected(RejectReason::RetriesExhausted) => Some(PushCounter::Failed),
            DispatchOutcome::Rejected(RejectReason::InvalidAppId) => None,
        }
    }

    /// The counter's name.
    pub fn name(&self) -> (r: &'static str)
        ensures
            *self == PushCounter::Successful ==> r@ == "successful_pushes"@,
            *self == PushCounter::Failed ==> r@ == "failed_pushes"@,
    {
        match self {
            PushCounter::Successful => "successful_pushes",
            PushCounter::Failed => "failed_pushes",
        }
    }
}

/// The outcomes of one notification's devices, collected in device order.
#[derive(Debug, Clone)]
pub struct DispatchProgress {
    outcomes: Vec<DispatchOutcome>,
    any_accepted: bool,
}

impl DispatchProgress {
    /// The outcomes collected so far.
    pub closed spec fn outcomes_spec(&self) -> Seq<DispatchOutcome> {
        self.outcomes@
    }

    /// The success flag agrees with the outcomes.
    pub closed spec fn wf(&self) -> bool {
        self.any_accepted == (count_accepted(self.outcomes@) > 0)
    }

    /// No outcome yet.
    pub fn new() -> (r: DispatchProgress)
        ensures
            r.wf(),
            r.outcomes_spec() == Seq::<DispatchOutcome>::empty(),
    {
        DispatchProgress { outcomes: Vec::new(), any_accepted: false }
    }

    /// Records the next device's outcome. Returns whether this is the
    /// notification's first accepted device, the one moment its dispatch
    /// start is recorded as a successful dispatch for the jitter estimate.
    pub fn finish_device(&mut self, outcome: DispatchOutcome) -> (record_success: bool)
        requires
            old(self).wf(),
        ensures
            final(self).wf(),
            final(self).outcomes_spec() == old(self).outcomes_spec().push(outcome),
            record_success == (outcome == DispatchOutcome::Accepted && count_accepted(
                old(self).outcomes_spec(),
            ) == 0),
    {
        let ghost before = self.outcomes@;
        self.outcomes.push(outcome);
        assert(self.outcomes@.drop_last() == before);
        let first = outcome == DispatchOutcome::Accepted && !self.any_accepted;
        if outcome == DispatchOutcome::Accepted {
            self.any_accepted = true;
        }
        first
    }

    /// The outcomes collected so far, in device order.
    pub fn outcomes(&self) -> (r: &Vec<DispatchOutcome>)
        ensures
            r@ == self.outcomes_spec(),
    {
        &self.outcomes
    }
}

} // verus!
