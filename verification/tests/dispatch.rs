use twitch_dispatch::dispatch::DispatchOutcome;
use twitch_dispatch::dispatch::TypedPayload;
use twitch_dispatch::dispatch::dispatch;
use twitch_dispatch::dispatch::notification_to_json;
use twitch_dispatch::dispatch::parse_notification;
use twitch_dispatch::dispatch::register_channel_update_v1;
use twitch_dispatch::errors::RejectReason;
use twitch_dispatch::events::ChannelUpdateV1;
use twitch_dispatch::events::ChannelUpdateV1Payload;
use twitch_dispatch::json::json_to_string;
use twitch_dispatch::registry::TypeRegistry;
use twitch_dispatch::signature::SignatureContext;
use twitch_dispatch::signature::expected_signature;
use twitch_dispatch::signature::timestamp_within_window;

fn registry() -> TypeRegistry {
    let mut reg = TypeRegistry::new();
    register_channel_update_v1(&mut reg).unwrap();
    reg
}

const PAYLOAD: &str = r#"
    {
        "subscription": {
            "id": "f1c2a387-161a-49f9-a165-0f21d7a4e1c4",
            "type": "channel.update",
            "version": "1",
            "condition": {
               "broadcaster_user_id": "1337"
            },
             "transport": {
                "method": "webhook",
                "callback": "https://example.com/webhooks/callback"
            },
            "created_at": "2019-11-16T10:11:12.123Z"
        },
        "event": {
            "broadcaster_user_id": "1337",
            "broadcaster_user_name": "cool_user",
            "title": "Best Stream Ever",
            "language": "en",
            "category_id": "21779",
            "category_name": "Fortnite",
            "is_mature": false
        }
    }
    "#;

#[test]
fn parse_payload() {
    let reg = registry();
    match parse_notification(&reg, PAYLOAD, true) {
        DispatchOutcome::Decoded(TypedPayload::ChannelUpdateV1 { subscription, event }) => {
            assert_eq!(subscription.broadcaster_user_id, "1337");
            assert_eq!(event.broadcaster_user_name, "cool_user");
        }
        DispatchOutcome::Rejected(r) => panic!("rejected: {:?}", r),
    }
}

fn delivery(secret: &str, id: &str, ts: &str, body: &str) -> SignatureContext {
    SignatureContext {
        secret: secret.to_string(),
        message_id: id.to_string(),
        timestamp: ts.to_string(),
        raw_body: body.to_string(),
        received_signature: expected_signature(secret, id, ts, body),
    }
}

#[test]
fn signed_delivery_decodes() {
    let reg = registry();
    let body = r#"{"subscription":{"type":"channel.update","version":"1","condition":{"broadcaster_user_id":"1337"}},"event":{"broadcaster_user_id":"1337","broadcaster_user_name":"cool_user","title":"Best Stream Ever","language":"en","category_id":"21779","category_name":"Fortnite","is_mature":false}}"#;
    let ctx = delivery("s3cRet", "msg-1", "2019-11-16T10:11:12.123Z", body);
    match dispatch(&reg, &ctx, true) {
        DispatchOutcome::Decoded(TypedPayload::ChannelUpdateV1 { event, .. }) => {
            assert_eq!(event.is_mature, false);
            assert_eq!(event.title, "Best Stream Ever");
        }
        DispatchOutcome::Rejected(r) => panic!("rejected: {:?}", r),
    }
}

#[test]
fn unregistered_version_is_rejected() {
    let reg = registry();
    let body = r#"{"subscription":{"type":"channel.update","version":"99","condition":{"broadcaster_user_id":"1337"}},"event":{"broadcaster_user_id":"1337","broadcaster_user_name":"cool_user","title":"Best Stream Ever","language":"en","category_id":"21779","category_name":"Fortnite","is_mature":false}}"#;
    let ctx = delivery("s3cRet", "msg-1", "2019-11-16T10:11:12.123Z", body);
    match dispatch(&reg, &ctx, true) {
        DispatchOutcome::Rejected(RejectReason::UnregisteredKind) => {}
        other => panic!("expected unregistered rejection, got {:?}", outcome_name(&other)),
    }
}

fn outcome_name(o: &DispatchOutcome) -> String {
    match o {
        DispatchOutcome::Decoded(_) => "Decoded".to_string(),
        DispatchOutcome::Rejected(r) => format!("Rejected({:?})", r),
    }
}

#[test]
fn altered_bytes_are_rejected() {
    let reg = registry();
    let body = r#"{"subscription":{"type":"channel.update","version":"1","condition":{"broadcaster_user_id":"1"}},"event":{}}"#;
    let good = delivery("secret", "id-1", "ts-1", body);
    assert!(good.verify());

    let altered_body = SignatureContext {
        raw_body: body.replace('1', "2"),
        ..clone_ctx(&good)
    };
    assert!(!altered_body.verify());
    match dispatch(&reg, &altered_body, true) {
        DispatchOutcome::Rejected(RejectReason::SignatureMismatch) => {}
        other => panic!("expected signature rejection, got {}", outcome_name(&other)),
    }

    let altered_id = SignatureContext {
        message_id: "id-2".to_string(),
        ..clone_ctx(&good)
    };
    assert!(!altered_id.verify());

    let altered_ts = SignatureContext {
        timestamp: "ts-2".to_string(),
        ..clone_ctx(&good)
    };
    assert!(!altered_ts.verify());

    let altered_sig = SignatureContext {
        received_signature: "sha256=0000".to_string(),
        ..clone_ctx(&good)
    };
    assert!(!altered_sig.verify());
}

fn clone_ctx(c: &SignatureContext) -> SignatureContext {
    SignatureContext {
        secret: c.secret.clone(),
        message_id: c.message_id.clone(),
        timestamp: c.timestamp.clone(),
        raw_body: c.raw_body.clone(),
        received_signature: c.received_signature.clone(),
    }
}

#[test]
fn known_hmac_vector() {
    // RFC 4231 test case 2 for HMAC-SHA256.
    let sig = expected_signature("Jefe", "", "", "what do ya want for nothing?");
    assert_eq!(
        sig,
        "sha256=5bdcc146bf60754e6a042426089575c75a003f089d2739839dec58b964ec3843"
    );
}

#[test]
fn encoded_payload_round_trips_through_dispatcher() {
    let reg = registry();
    let condition = ChannelUpdateV1 {
        broadcaster_user_id: "1337".to_string(),
    };
    let payload = ChannelUpdateV1Payload {
        broadcaster_user_id: "1337".to_string(),
        broadcaster_user_name: "cool \"user\"".to_string(),
        title: "a\\b\nnew\u{1}line\u{8}\u{b}\u{c}\u{1f}".to_string(),
        language: "en".to_string(),
        category_id: "21779".to_string(),
        category_name: "Fortnite".to_string(),
        is_mature: true,
    };
    let doc = notification_to_json("channel.update", "1", &condition, &payload);
    let text = json_to_string(&doc);
    match parse_notification(&reg, &text, true) {
        DispatchOutcome::Decoded(TypedPayload::ChannelUpdateV1 { subscription, event }) => {
            assert_eq!(subscription.broadcaster_user_id, condition.broadcaster_user_id);
            assert_eq!(event.broadcaster_user_id, payload.broadcaster_user_id);
            assert_eq!(event.broadcaster_user_name, payload.broadcaster_user_name);
            assert_eq!(event.title, payload.title);
            assert_eq!(event.language, payload.language);
            assert_eq!(event.category_id, payload.category_id);
            assert_eq!(event.category_name, payload.category_name);
            assert_eq!(event.is_mature, payload.is_mature);
        }
        DispatchOutcome::Rejected(r) => panic!("rejected: {:?}", r),
    }
}

#[test]
fn malformed_envelope_is_rejected() {
    let reg = registry();
    let ctx = delivery("k", "i", "t", "{not json");
    match dispatch(&reg, &ctx, true) {
        DispatchOutcome::Rejected(RejectReason::MalformedEnvelope) => {}
        other => panic!("expected malformed rejection, got {}", outcome_name(&other)),
    }
    let ctx = delivery("k", "i", "t", r#"{"subscription":{"version":"1"},"event":{}}"#);
    match dispatch(&reg, &ctx, true) {
        DispatchOutcome::Rejected(RejectReason::MalformedEnvelope) => {}
        other => panic!("expected malformed rejection, got {}", outcome_name(&other)),
    }
}

#[test]
fn payload_shape_mismatch_is_rejected() {
    let reg = registry();
    let body = r#"{"subscription":{"type":"channel.update","version":"1","condition":{"broadcaster_user_id":"1337"}},"event":{"broadcaster_user_id":1337}}"#;
    let ctx = delivery("k", "i", "t", body);
    match dispatch(&reg, &ctx, true) {
        DispatchOutcome::Rejected(RejectReason::PayloadShapeMismatch) => {}
        other => panic!("expected shape rejection, got {}", outcome_name(&other)),
    }
}

#[test]
fn strict_rejects_unknown_event_field_lenient_ignores_it() {
    let reg = registry();
    let body = r#"{"subscription":{"type":"channel.update","version":"1","condition":{"broadcaster_user_id":"1337"}},"event":{"broadcaster_user_id":"1337","broadcaster_user_name":"cool_user","title":"Best Stream Ever","language":"en","category_id":"21779","category_name":"Fortnite","is_mature":false,"surprise":"field"}}"#;
    let ctx = delivery("k", "i", "t", body);
    match dispatch(&reg, &ctx, true) {
        DispatchOutcome::Rejected(RejectReason::PayloadShapeMismatch) => {}
        other => panic!("expected strict rejection, got {}", outcome_name(&other)),
    }
    match dispatch(&reg, &ctx, false) {
        DispatchOutcome::Decoded(TypedPayload::ChannelUpdateV1 { event, .. }) => {
            assert_eq!(event.title, "Best Stream Ever");
        }
        DispatchOutcome::Rejected(r) => panic!("lenient mode rejected: {:?}", r),
    }
}

#[test]
fn duplicate_registration_is_refused() {
    let mut reg = TypeRegistry::new();
    assert!(register_channel_update_v1(&mut reg).is_ok());
    assert!(register_channel_update_v1(&mut reg).is_err());
}

#[test]
fn timestamp_window() {
    assert!(timestamp_within_window(1000, 1300, 600));
    assert!(timestamp_within_window(1600, 1300, 600));
    assert!(!timestamp_within_window(100, 1300, 600));
    assert!(!timestamp_within_window(2000, 1300, 600));
}
