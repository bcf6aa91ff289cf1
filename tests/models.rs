use matrix_hedwig::error::{ErrCode, HedwigError};
use matrix_hedwig::models::{Counts, Data, Device, DeviceType, Notification, Priority};
use matrix_hedwig::settings::ApnsPushType;

fn plain_device(app_id: &str, data_message: Option<&str>) -> Device {
    Device {
        app_id: app_id.to_owned(),
        pushkey: "k".to_owned(),
        pushkey_ts: None,
        data: data_message.map(|m| Data { data_message: Some(m.to_owned()) }),
        tweaks: None,
        notify_via: None,
        json: "{\"pushkey\":\"k\"}".to_owned(),
    }
}

fn bare_notification(devices: Vec<Device>) -> Notification {
    Notification {
        event_id: Some("$e".to_owned()),
        room_id: None,
        event_type: Some("m.room.message".to_owned()),
        sender: Some("@a:b".to_owned()),
        sender_display_name: None,
        room_name: Some("room".to_owned()),
        room_alias: None,
        prio: Some(Priority::Low),
        counts: None,
        content: Some("{\"body\":\"hi\"}".to_owned()),
        devices,
        ciphertext: None,
        ephemeral: Some("eph".to_owned()),
        mac: None,
        user_is_target: Some(true),
    }
}

#[test]
fn device_types_and_labels() {
    assert_eq!(plain_device("x.data_message", None).device_type().label(), "AndroidLegacy");
    assert_eq!(plain_device("x", Some("android")).device_type(), DeviceType::Android);
    assert_eq!(plain_device("x", Some("android")).device_type().label(), "Android");
    assert_eq!(plain_device("x", Some("ios")).device_type().label(), "Ios");
    assert_eq!(plain_device("x", Some("web")).device_type().label(), "None");
    assert_eq!(plain_device("x", None).device_type().label(), "None");
}

#[test]
fn stripped_copy_fields() {
    let d = plain_device("x", None);
    let mut n = bare_notification(vec![d.clone(), plain_device("y", None)]);
    let data = n.data(&d);
    assert_eq!(data.counts, "null");
    assert_eq!(data.prio, "\"low\"");
    assert_eq!(data.content, "{\"body\":\"hi\"}");
    assert_eq!(data.devices, "[{\"pushkey\":\"k\"}]");
    assert_eq!(data.user_is_target.as_deref(), Some("true"));
    assert_eq!(data.event_type.as_deref(), Some("m.room.message"));
    assert_eq!(data.ephemeral.as_deref(), Some("eph"));
    assert!(data.room_id.is_none());
    n.counts = Some(Counts { unread: Some(12), missed_calls: Some(3) });
    n.prio = None;
    n.user_is_target = Some(false);
    let data = n.data(&d);
    assert_eq!(data.counts, "{\"unread\":12,\"missed_calls\":3}");
    assert_eq!(data.prio, "null");
    assert_eq!(data.user_is_target.as_deref(), Some("false"));
    assert_eq!(n.unread_count(), 12);
    assert_eq!(n.device_count(), 2);
}

#[test]
fn push_type_parsing_ignores_case() {
    assert_eq!(ApnsPushType::parse("ALERT"), Some(ApnsPushType::Alert));
    assert_eq!(ApnsPushType::parse("Background"), Some(ApnsPushType::Background));
    assert_eq!(ApnsPushType::parse("voip"), None);
    assert_eq!(ApnsPushType::from_lowercase("ALERT"), None);
    assert_eq!(ApnsPushType::Background.as_str(), "background");
}

#[test]
fn error_codes() {
    let e = HedwigError::bad_json("Failed to buffer the request body".to_owned());
    assert_eq!(e.errcode.as_str(), "BAD_JSON");
    assert_eq!(HedwigError::fcm_auth_failed().errcode, ErrCode::FcmAuthFailed);
    assert_eq!(HedwigError::fcm_failed().errcode.as_str(), "FCM_FAILED");
    assert_eq!(ErrCode::APNSPrivateKeyNotFound.as_str(), "APNS_PRIVATE_KEY_NOT_FOUND");
    assert_eq!(HedwigError::apns_failed("BadDeviceToken".to_owned()).errcode, ErrCode::APNSFailed);
}
