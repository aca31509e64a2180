use matrix_api::{callback_redirect_url, check_homeserver_url, parse_u64, u64_to_dec,
    validate_room_id, ApiError, Config};

#[test]
fn decimal_formatting_is_canonical() {
    assert_eq!(u64_to_dec(0), "0");
    assert_eq!(u64_to_dec(7), "7");
    assert_eq!(u64_to_dec(42), "42");
    assert_eq!(u64_to_dec(1000), "1000");
    assert_eq!(u64_to_dec(u64::MAX), "18446744073709551615");
}

#[test]
fn decimal_parsing_accepts_exactly_numbers_in_range() {
    assert_eq!(parse_u64("0"), Some(0));
    assert_eq!(parse_u64("42"), Some(42));
    assert_eq!(parse_u64("007"), Some(7));
    assert_eq!(parse_u64("18446744073709551615"), Some(u64::MAX));
    assert_eq!(parse_u64(""), None);
    assert_eq!(parse_u64("12a"), None);
    assert_eq!(parse_u64("-1"), None);
    assert_eq!(parse_u64(" 1"), None);
    assert_eq!(parse_u64("18446744073709551616"), None);
    assert_eq!(parse_u64("99999999999999999999999"), None);
}

#[test]
fn decimal_codec_round_trips() {
    for n in [0u64, 1, 9, 10, 99, 100, 12345, u64::MAX - 1, u64::MAX] {
        assert_eq!(parse_u64(&u64_to_dec(n)), Some(n));
    }
}

#[test]
fn room_id_grammar() {
    assert!(validate_room_id("!room:example.org").is_ok());
    assert!(validate_room_id("!a:b").is_ok());
    assert!(matches!(
        validate_room_id("room:example.org"),
        Err(ApiError::InvalidRoomIdentifier)
    ));
    assert!(matches!(
        validate_room_id("#alias:example.org"),
        Err(ApiError::InvalidRoomIdentifier)
    ));
    assert!(matches!(validate_room_id("!room"), Err(ApiError::InvalidRoomIdentifier)));
    assert!(matches!(validate_room_id("!ab:"), Err(ApiError::InvalidRoomIdentifier)));
    assert!(matches!(validate_room_id("!:x"), Err(ApiError::InvalidRoomIdentifier)));
    assert!(matches!(validate_room_id(""), Err(ApiError::InvalidRoomIdentifier)));
}

#[test]
fn redirect_url_embeds_the_id() {
    assert_eq!(
        callback_redirect_url(5),
        "http://localhost:8080/login/sso/callback?session_id=5"
    );
    assert_eq!(
        callback_redirect_url(123),
        "http://localhost:8080/login/sso/callback?session_id=123"
    );
}

#[test]
fn error_codes_and_messages() {
    assert_eq!(ApiError::SessionNotFound.status_code(), 400);
    assert_eq!(ApiError::NotAuthenticated.status_code(), 401);
    assert_eq!(ApiError::InvalidRoomIdentifier.status_code(), 400);
    assert_eq!(ApiError::UpstreamProtocolError("x".to_string()).status_code(), 500);
    assert_eq!(ApiError::Timeout("sync".to_string()).status_code(), 500);
    assert_eq!(ApiError::SerializationError.status_code(), 500);
    assert_eq!(ApiError::SessionNotFound.message(), "session not found");
    assert_eq!(ApiError::NotAuthenticated.message(), "not authenticated");
    assert_eq!(
        ApiError::UpstreamProtocolError("boom".to_string()).message(),
        "upstream protocol error: boom"
    );
    assert_eq!(ApiError::Timeout("sync".to_string()).message(), "timed out: sync");
}

#[test]
fn homeserver_url_is_checked_by_the_parser() {
    let good = Config::new("https://matrix.example.org".to_string());
    assert!(check_homeserver_url(&good).is_ok());
    let with_port = Config::new("http://localhost:8008".to_string());
    assert!(check_homeserver_url(&with_port).is_ok());
    let bad = Config::new("not a url".to_string());
    match check_homeserver_url(&bad) {
        Err(ApiError::UpstreamProtocolError(detail)) => {
            assert_eq!(detail, "invalid homeserver url")
        },
        _ => panic!("a malformed homeserver address must be rejected"),
    }
    let relative = Config::new("/just/a/path".to_string());
    assert!(check_homeserver_url(&relative).is_err());
}
