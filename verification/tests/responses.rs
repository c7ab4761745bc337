use twitch_dispatch::errors::DecodeFieldError;
use twitch_dispatch::errors::NextPageError;
use twitch_dispatch::errors::PaginationProtocolError;
use twitch_dispatch::pagination::next_cursor;
use twitch_dispatch::pagination::next_request;
use twitch_dispatch::registry::Scope;
use twitch_dispatch::request::EndpointDescriptor;
use twitch_dispatch::request::HttpMethod;
use twitch_dispatch::response::ResponseError;
use twitch_dispatch::response::decode_response;

#[test]
fn strict_rejects_undeclared_field_lenient_ignores_it() {
    let data = r#"{"data":[{"msg_id":"123","is_permitted":true,"extra":"x"}]}"#;
    match decode_response(200, data, true) {
        Err(ResponseError::Decode(DecodeFieldError::UnknownField)) => {}
        other => panic!("expected unknown-field error, got {:?}", kind_of(&other)),
    }
    let env = decode_response(200, data, false).unwrap();
    assert_eq!(env.data.len(), 1);
    assert_eq!(env.data[0].msg_id, "123");
    assert!(env.data[0].is_permitted);
}

fn kind_of(
    r: &Result<twitch_dispatch::response::ResponseEnvelope, ResponseError>,
) -> String {
    match r {
        Ok(_) => "Ok".to_string(),
        Err(ResponseError::Server { status, message, .. }) => {
            format!("Server({}, {})", status, message)
        }
        Err(ResponseError::MalformedErrorBody { status, body_prefix }) => {
            format!("MalformedErrorBody({}, {})", status, body_prefix)
        }
        Err(ResponseError::MalformedBody) => "MalformedBody".to_string(),
        Err(ResponseError::Decode(e)) => format!("Decode({:?})", e),
    }
}

#[test]
fn missing_and_mistyped_fields_are_distinguished() {
    let missing = r#"{"data":[{"is_permitted":true}]}"#;
    match decode_response(200, missing, true) {
        Err(ResponseError::Decode(DecodeFieldError::MissingField)) => {}
        other => panic!("expected missing-field error, got {}", kind_of(&other)),
    }
    let mistyped = r#"{"data":[{"msg_id":7,"is_permitted":true}]}"#;
    match decode_response(200, mistyped, true) {
        Err(ResponseError::Decode(DecodeFieldError::WrongFieldType)) => {}
        other => panic!("expected wrong-type error, got {}", kind_of(&other)),
    }
    let no_data = r#"{"pagination":{}}"#;
    match decode_response(200, no_data, false) {
        Err(ResponseError::Decode(DecodeFieldError::MissingField)) => {}
        other => panic!("expected missing-field error, got {}", kind_of(&other)),
    }
}

#[test]
fn pagination_and_total_are_decoded() {
    let data = r#"{"data":[],"pagination":{"cursor":"eyJiI"},"total":42}"#;
    let env = decode_response(200, data, true).unwrap();
    assert_eq!(env.pagination.as_deref(), Some("eyJiI"));
    assert_eq!(env.total, Some(42));

    let empty_cursor = r#"{"data":[],"pagination":{}}"#;
    let env = decode_response(200, empty_cursor, true).unwrap();
    assert!(env.pagination.is_none());

    let blank_cursor = r#"{"data":[],"pagination":{"cursor":""}}"#;
    let env = decode_response(200, blank_cursor, true).unwrap();
    assert!(env.pagination.is_none());
}

#[test]
fn total_bounds_are_enforced() {
    let max = r#"{"data":[],"total":18446744073709551615}"#;
    let env = decode_response(200, max, true).unwrap();
    assert_eq!(env.total, Some(u64::MAX));

    let over = r#"{"data":[],"total":18446744073709551616}"#;
    match decode_response(200, over, true) {
        Err(ResponseError::Decode(DecodeFieldError::WrongFieldType)) => {}
        other => panic!("expected wrong-type error, got {}", kind_of(&other)),
    }
}

#[test]
fn server_errors_are_surfaced_structured() {
    let body = r#"{"error":"Unauthorized","status":401,"message":"Token invalid"}"#;
    match decode_response(401, body, true) {
        Err(ResponseError::Server { status, error_tag, message }) => {
            assert_eq!(status, 401);
            assert_eq!(error_tag.as_deref(), Some("Unauthorized"));
            assert_eq!(message, "Token invalid");
        }
        other => panic!("expected server error, got {}", kind_of(&other)),
    }
}

#[test]
fn malformed_error_bodies_keep_a_bounded_prefix() {
    let long_body: String = "x".repeat(200);
    match decode_response(500, &long_body, true) {
        Err(ResponseError::MalformedErrorBody { status, body_prefix }) => {
            assert_eq!(status, 500);
            assert_eq!(body_prefix.len(), 64);
        }
        other => panic!("expected malformed error body, got {}", kind_of(&other)),
    }
}

#[test]
fn success_status_with_broken_json_is_malformed() {
    match decode_response(200, "{oops", true) {
        Err(ResponseError::MalformedBody) => {}
        other => panic!("expected malformed body, got {}", kind_of(&other)),
    }
}

#[test]
fn repeated_cursor_stops_the_driver() {
    // First page: no previous cursor, fresh cursor, non-empty data.
    let first = next_cursor(&None, &Some("abc".to_string()), 20).unwrap();
    assert_eq!(first.as_deref(), Some("abc"));
    // The server echoes the cursor it was just asked for: one extra
    // exchange at most, then a protocol error instead of a loop.
    let second = next_cursor(&first, &Some("abc".to_string()), 20);
    assert_eq!(second.unwrap_err(), PaginationProtocolError::RepeatedCursor);
}

#[test]
fn absent_or_empty_cursor_is_terminal() {
    assert_eq!(next_cursor(&None, &None, 20).unwrap(), None);
    assert_eq!(next_cursor(&None, &Some("".to_string()), 20).unwrap(), None);
    assert_eq!(next_cursor(&None, &Some("abc".to_string()), 0).unwrap(), None);
    let fresh = next_cursor(&Some("abc".to_string()), &Some("def".to_string()), 20).unwrap();
    assert_eq!(fresh.as_deref(), Some("def"));
}

#[test]
fn driver_injects_cursor_into_next_request() {
    let desc = EndpointDescriptor {
        path: "moderation/banned".to_string(),
        method: HttpMethod::Get,
        scopes: vec![Scope::ModerationRead],
        version: "helix".to_string(),
    };
    let params = vec![("broadcaster_id".to_string(), "1234".to_string())];
    let rd = next_request(&desc, &params, &None, &Some("eyJiI".to_string()), 20)
        .unwrap()
        .unwrap();
    assert_eq!(
        rd.url,
        "https://api.twitch.tv/helix/moderation/banned?broadcaster_id=1234&after=eyJiI"
    );
    assert!(rd.body.is_none());

    assert!(next_request(&desc, &params, &None, &None, 20).unwrap().is_none());

    let echoed = next_request(
        &desc,
        &params,
        &Some("eyJiI".to_string()),
        &Some("eyJiI".to_string()),
        20,
    );
    assert!(matches!(
        echoed,
        Err(NextPageError::Protocol(PaginationProtocolError::RepeatedCursor))
    ));
}
