use twitch_dispatch::errors::RequestConstructionError;
use twitch_dispatch::moderation::CheckAutoModStatus;
use twitch_dispatch::moderation::CheckAutoModStatusBody;
use twitch_dispatch::moderation::CheckAutoModStatusRequest;
use twitch_dispatch::registry::Scope;
use twitch_dispatch::request::EndpointDescriptor;
use twitch_dispatch::request::HttpMethod;
use twitch_dispatch::request::build_request;
use twitch_dispatch::response::decode_response;

#[test]
fn test_request() {
    let req = CheckAutoModStatusRequest::new("198704263".to_string());

    // From twitch docs
    let data = r#"
{
   "data": [
     {
       "msg_id": "123",
       "is_permitted": true
     },
     {
       "msg_id": "393",
       "is_permitted": false
     }
   ]
}
"#;

    let uri = req.get_uri().unwrap();
    assert_eq!(
        uri,
        "https://api.twitch.tv/helix/moderation/enforcements/status?broadcaster_id=198704263"
    );

    let env = decode_response(200, data, true).unwrap();
    assert_eq!(env.data.len(), 2);
}

fn statuses(env_data: &[CheckAutoModStatus]) -> Vec<(String, bool)> {
    env_data.iter().map(|s| (s.msg_id.clone(), s.is_permitted)).collect()
}

#[test]
fn decoded_statuses_carry_verdicts() {
    let data = r#"{"data":[{"msg_id":"123","is_permitted":true},{"msg_id":"393","is_permitted":false}]}"#;
    let env = decode_response(200, data, true).unwrap();
    assert_eq!(
        statuses(&env.data),
        vec![("123".to_string(), true), ("393".to_string(), false)]
    );
    assert!(env.pagination.is_none());
    assert!(env.total.is_none());
}

#[test]
fn get_request_serializes_query_and_sends_no_body() {
    let desc = EndpointDescriptor {
        path: "moderation/banned".to_string(),
        method: HttpMethod::Get,
        scopes: vec![Scope::ModerationRead],
        version: "helix".to_string(),
    };
    let params = vec![("broadcaster_id".to_string(), "1234".to_string())];
    let rd = build_request(&desc, &params, None).unwrap();
    assert_eq!(
        rd.url,
        "https://api.twitch.tv/helix/moderation/banned?broadcaster_id=1234"
    );
    assert!(rd.body.is_none());
    assert_eq!(rd.scopes, vec![Scope::ModerationRead]);
    assert_eq!(rd.method, HttpMethod::Get);
}

#[test]
fn repeated_keys_and_escaping_in_query() {
    let desc = EndpointDescriptor {
        path: "streams".to_string(),
        method: HttpMethod::Get,
        scopes: vec![],
        version: "helix".to_string(),
    };
    let params = vec![
        ("user_id".to_string(), "1".to_string()),
        ("user_id".to_string(), "2".to_string()),
        ("game".to_string(), "a b&c".to_string()),
    ];
    let rd = build_request(&desc, &params, None).unwrap();
    assert_eq!(
        rd.url,
        "https://api.twitch.tv/helix/streams?user_id=1&user_id=2&game=a%20b%26c"
    );
}

#[test]
fn construction_errors_are_local_and_classified() {
    let desc = EndpointDescriptor {
        path: "moderation/enforcements/status".to_string(),
        method: HttpMethod::Post,
        scopes: vec![Scope::ModerationRead],
        version: "helix".to_string(),
    };
    let empty = vec![("broadcaster_id".to_string(), "".to_string())];
    assert_eq!(
        build_request(&desc, &empty, None).unwrap_err(),
        RequestConstructionError::EmptyRequiredField
    );

    let non_ascii = vec![("broadcaster_id".to_string(), "žižek".to_string())];
    assert_eq!(
        build_request(&desc, &non_ascii, None).unwrap_err(),
        RequestConstructionError::NonAsciiParam
    );

    let get_desc = EndpointDescriptor {
        path: "streams".to_string(),
        method: HttpMethod::Get,
        scopes: vec![],
        version: "helix".to_string(),
    };
    let ok = vec![("user_id".to_string(), "1".to_string())];
    assert_eq!(
        build_request(&get_desc, &ok, Some("{}".to_string())).unwrap_err(),
        RequestConstructionError::BodyNotAllowed
    );
}

#[test]
fn batch_body_wraps_messages_under_data() {
    let req = CheckAutoModStatusRequest::new("1234".to_string());
    let batch = vec![CheckAutoModStatusBody::new(
        "test1".to_string(),
        "automod please approve this!".to_string(),
        "1234".to_string(),
    )];
    let body = req.body(&batch).unwrap();
    assert_eq!(
        body,
        r#"{"data":[{"msg_id":"test1","msg_text":"automod please approve this!","user_id":"1234"}]}"#
    );
    // The platform parses what the serializer writes.
    let parsed: serde_json::Value = serde_json::from_str(&body).unwrap();
    assert_eq!(parsed["data"][0]["msg_id"], serde_json::Value::String("test1".to_string()));
}

#[test]
fn body_escapes_quotes_and_backslashes() {
    let req = CheckAutoModStatusRequest::new("1234".to_string());
    let batch = vec![CheckAutoModStatusBody::new(
        "id\"q".to_string(),
        "line1\nline2\t\\end".to_string(),
        "u".to_string(),
    )];
    let body = req.body(&batch).unwrap();
    let parsed: serde_json::Value = serde_json::from_str(&body).unwrap();
    assert_eq!(
        parsed["data"][0]["msg_text"],
        serde_json::Value::String("line1\nline2\t\\end".to_string())
    );
    assert_eq!(
        parsed["data"][0]["msg_id"],
        serde_json::Value::String("id\"q".to_string())
    );
}

#[test]
fn body_with_control_characters_is_the_serde_serialization() {
    // Every control character below U+0020, plus the two meta
    // characters, in one message text.
    let mut text = String::new();
    for code in 0u32..32u32 {
        text.push(char::from_u32(code).unwrap());
    }
    text.push('"');
    text.push('\\');
    let req = CheckAutoModStatusRequest::new("1234".to_string());
    let batch = vec![CheckAutoModStatusBody::new(
        "m1".to_string(),
        text.clone(),
        "u".to_string(),
    )];
    let body = req.body(&batch).unwrap();

    // Byte for byte what serde_json writes for the same value.
    let mut by_serde = serde_json::Map::new();
    by_serde.insert(
        "msg_id".to_string(),
        serde_json::Value::String("m1".to_string()),
    );
    by_serde.insert(
        "msg_text".to_string(),
        serde_json::Value::String(text.clone()),
    );
    by_serde.insert(
        "user_id".to_string(),
        serde_json::Value::String("u".to_string()),
    );
    let mut outer = serde_json::Map::new();
    outer.insert(
        "data".to_string(),
        serde_json::Value::Array(vec![serde_json::Value::Object(by_serde)]),
    );
    let expected = serde_json::to_string(&serde_json::Value::Object(outer)).unwrap();
    assert_eq!(body, expected);

    // And the platform's parser accepts it and gives the text back.
    let parsed: serde_json::Value = serde_json::from_str(&body).unwrap();
    assert_eq!(parsed["data"][0]["msg_text"], serde_json::Value::String(text));
}

#[test]
fn post_request_carries_body_and_scope() {
    let req = CheckAutoModStatusRequest::new("1234".to_string());
    let batch = vec![CheckAutoModStatusBody::new(
        "test1".to_string(),
        "hi".to_string(),
        "1234".to_string(),
    )];
    let body = req.body(&batch).unwrap();
    let rd = req.to_request(body.clone()).unwrap();
    assert_eq!(rd.method, HttpMethod::Post);
    assert_eq!(rd.body.as_deref(), Some(body.as_str()));
    assert_eq!(rd.scopes, vec![Scope::ModerationRead]);
    assert!(rd.url.ends_with("?broadcaster_id=1234"));
}
