use matrix_hedwig::models::{
    Counts, Data, DataMessageType, Device, DeviceType, Notification, Priority, PushProvider,
};
use matrix_hedwig::payload::{build_payload, route, PayloadShape, ProviderPayload, Route};
use matrix_hedwig::settings::{ApnsPushType, Hedwig, DEFAULT_NOTIFICATION_REQUEST_BODY_SIZE_LIMIT};

fn gateway_settings() -> Hedwig {
    Hedwig {
        app_id: "com.famedly.🦊".to_owned(),
        push_max_retries: 4,
        notification_title: "🦊 <count> 🦊".to_owned(),
        notification_body: "read the notification pls :c".to_owned(),
        notification_sound: "default".to_owned(),
        notification_icon: "notifications_icon".to_owned(),
        notification_tag: "org.matrix.default_notification".to_owned(),
        notification_click_action: "FLUTTER_NOTIFICATION_CLICK".to_owned(),
        fcm_notification_android_channel_id: "org.matrix.app.message".to_owned(),
        apns_push_type: ApnsPushType::Background,
        notification_request_body_size_limit: DEFAULT_NOTIFICATION_REQUEST_BODY_SIZE_LIMIT,
        max_jitter_millis: 0,
    }
}

fn device(app_id: &str, data_message: Option<&str>, pushkey: &str) -> Device {
    Device {
        app_id: app_id.to_owned(),
        pushkey: pushkey.to_owned(),
        pushkey_ts: Some(1_655_896_032),
        data: Some(Data { data_message: data_message.map(str::to_owned) }),
        tweaks: None,
        notify_via: None,
        json: format!("{{\"app_id\":\"{app_id}\",\"pushkey\":\"{pushkey}\"}}"),
    }
}

fn message(devices: Vec<Device>, event_id: Option<&str>, unread: u16) -> Notification {
    Notification {
        event_id: event_id.map(str::to_owned),
        room_id: Some("owo".to_owned()),
        event_type: None,
        sender: None,
        sender_display_name: None,
        room_name: None,
        room_alias: None,
        prio: Some(Priority::High),
        counts: Some(Counts { unread: Some(unread), missed_calls: None }),
        content: None,
        devices,
        ciphertext: None,
        ephemeral: None,
        mac: None,
        user_is_target: None,
    }
}

#[test]
fn counts_only_generic_has_no_visible_content() {
    let s = gateway_settings();
    let d = device("com.famedly.🦊", None, "Generic");
    let n = message(vec![d.clone()], None, 0);
    assert!(n.is_counts_only());
    match build_payload(&n, &d, &s) {
        Some(ProviderPayload::Fcm(m)) => {
            assert!(m.notification.is_none());
            assert!(m.data.is_none());
            let apns = m.apns.unwrap();
            assert_eq!(apns.badge, 0);
            assert_eq!(apns.priority, 5);
            assert!(m.android.unwrap().notification.is_some());
        }
        other => panic!("unexpected payload {other:?}"),
    }
}

#[test]
fn android_data_message_carries_single_device_copy() {
    let s = gateway_settings();
    let d = device("com.famedly.🦊", Some("android"), "Android");
    let other = device("com.famedly.🦊", None, "Other");
    for unread in [0u16, 1, 1337] {
        let n = message(vec![d.clone(), other.clone()], Some("uwu"), unread);
        match build_payload(&n, &d, &s) {
            Some(ProviderPayload::Fcm(m)) => {
                assert_eq!(m.token, "Android");
                assert!(m.notification.is_none());
                assert!(m.apns.is_none());
                let android = m.android.unwrap();
                assert!(android.notification.is_none());
                assert!(android.high_priority);
                assert!(!android.direct_boot_ok);
                let data = m.data.unwrap();
                assert_eq!(data.devices, format!("[{}]", d.json));
                assert!(!data.devices.contains("Other"));
                assert_eq!(
                    data.counts,
                    format!("{{\"unread\":{unread},\"missed_calls\":null}}")
                );
                assert_eq!(data.prio, "\"high\"");
                assert_eq!(data.content, "null");
                assert_eq!(data.event_id.as_deref(), Some("uwu"));
                assert_eq!(data.room_id.as_deref(), Some("owo"));
            }
            other => panic!("unexpected payload {other:?}"),
        }
    }
}

#[test]
fn generic_notification_substitutes_count_in_title() {
    let s = gateway_settings();
    let d = device("com.famedly.🦊", None, "Generic");
    let n = message(vec![d.clone()], Some("uwu"), 1337);
    assert!(!n.is_counts_only());
    match build_payload(&n, &d, &s) {
        Some(ProviderPayload::Fcm(m)) => {
            let alert = m.notification.unwrap();
            assert_eq!(alert.title, "🦊 1337 🦊");
            assert_eq!(alert.body, "read the notification pls :c");
            let apns = m.apns.unwrap();
            assert_eq!(apns.priority, 10);
            assert_eq!(apns.badge, 1337);
            assert_eq!(apns.push_type, ApnsPushType::Background);
            assert!(!apns.mutable_content);
            let an = m.android.unwrap().notification.unwrap();
            assert_eq!(an.channel_id, "org.matrix.app.message");
            assert_eq!(an.icon, "notifications_icon");
            assert_eq!(an.tag, "org.matrix.default_notification");
            assert_eq!(an.click_action, "FLUTTER_NOTIFICATION_CLICK");
            assert_eq!(an.sound, "default");
        }
        other => panic!("unexpected payload {other:?}"),
    }
}

#[test]
fn title_replaces_every_placeholder() {
    let mut s = gateway_settings();
    s.notification_title = "<count>/<count> new".to_owned();
    let d = device("com.famedly.🦊", None, "Generic");
    let n = message(vec![d.clone()], Some("e"), 7);
    match build_payload(&n, &d, &s) {
        Some(ProviderPayload::Fcm(m)) => assert_eq!(m.notification.unwrap().title, "7/7 new"),
        other => panic!("unexpected payload {other:?}"),
    }
}

#[test]
fn ios_data_message_is_data_only_with_background_priority() {
    let s = gateway_settings();
    let d = device("com.famedly.🦊", Some("ios"), "IoS");
    let n = message(vec![d.clone()], Some("uwu"), 3);
    match build_payload(&n, &d, &s) {
        Some(ProviderPayload::Fcm(m)) => {
            assert!(m.notification.is_none());
            assert!(m.android.is_none());
            assert!(m.data.is_some());
            let apns = m.apns.unwrap();
            assert_eq!(apns.priority, 5);
            assert!(apns.mutable_content);
            assert_eq!(apns.badge, 3);
        }
        other => panic!("unexpected payload {other:?}"),
    }
}

#[test]
fn legacy_suffix_routes_to_android_data() {
    let s = gateway_settings();
    let d = device("com.famedly.🦊.data_message", None, "AndroidLegacy");
    assert_eq!(d.data_message_type(), DataMessageType::Android);
    assert_eq!(d.device_type(), DeviceType::AndroidLegacy);
    assert_eq!(route(&d, &s), Route::Fcm(PayloadShape::AndroidData));
}

#[test]
fn mismatched_app_id_has_no_route() {
    let s = gateway_settings();
    let d = device("com.famedly.🐾", Some("android"), "Paw");
    assert_eq!(route(&d, &s), Route::InvalidAppId);
    let n = message(vec![d.clone()], Some("uwu"), 1);
    assert!(build_payload(&n, &d, &s).is_none());
}

#[test]
fn explicit_apple_preference_routes_directly() {
    let s = gateway_settings();
    let mut d = device("com.famedly.🦊", None, "Direct");
    d.notify_via = Some(PushProvider::Apns);
    assert_eq!(route(&d, &s), Route::Apns);
    let n = message(vec![d.clone()], Some("uwu"), 2);
    match build_payload(&n, &d, &s) {
        Some(ProviderPayload::Apns(m)) => {
            assert_eq!(m.device_token, "Direct");
            assert_eq!(m.badge, 2);
            assert!(m.mutable_content);
            assert_eq!(m.alert.unwrap().title, "🦊 2 🦊");
        }
        other => panic!("unexpected payload {other:?}"),
    }
    let cleared = message(vec![d.clone()], None, 0);
    match build_payload(&cleared, &d, &s) {
        Some(ProviderPayload::Apns(m)) => assert!(m.alert.is_none()),
        other => panic!("unexpected payload {other:?}"),
    }
}

#[test]
fn data_message_kind_wins_over_apple_preference() {
    let s = gateway_settings();
    let mut d = device("com.famedly.🦊", Some("android"), "A");
    d.notify_via = Some(PushProvider::Apns);
    assert_eq!(route(&d, &s), Route::Fcm(PayloadShape::AndroidData));
}

#[test]
fn payload_is_deterministic() {
    let s = gateway_settings();
    for (kind, key) in [(Some("android"), "A"), (Some("ios"), "I"), (None, "G")] {
        let d = device("com.famedly.🦊", kind, key);
        let n = message(vec![d.clone()], Some("uwu"), 12);
        let first = format!("{:?}", build_payload(&n, &d, &s));
        let second = format!("{:?}", build_payload(&n, &d, &s));
        assert_eq!(first, second);
    }
}

#[test]
fn counts_only_detection() {
    let d = device("com.famedly.🦊", None, "G");
    let mut n = message(vec![d.clone()], Some("e"), 5);
    assert!(!n.is_counts_only());
    n.counts = Some(Counts { unread: None, missed_calls: Some(1) });
    assert!(n.is_counts_only());
    n.counts = None;
    assert!(!n.is_counts_only());
    n.ciphertext = Some("c".to_owned());
    assert!(!n.is_counts_only());
    n.counts = Some(Counts { unread: Some(4), missed_calls: None });
    assert!(n.is_counts_only());
    n.event_id = None;
    n.counts = None;
    assert!(!n.is_counts_only());
    n.ciphertext = None;
    assert!(n.is_counts_only());
}
