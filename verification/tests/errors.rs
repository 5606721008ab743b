use r_fubon_neo::constants::{
    AUTHENTICATED_EVENT, AUTHENTICATION_TIMEOUT_MESSAGE, CONNECT_EVENT, DISCONNECT_EVENT,
    ERROR_EVENT, MESSAGE_EVENT, MISSING_CREDENTIALS_MESSAGE, UNAUTHENTICATED_EVENT,
    UNAUTHENTICATED_MESSAGE,
};
use r_fubon_neo::text::{clone_optional, same_text};
use r_fubon_neo::{version, Error, VERSION};

#[test]
fn version_is_the_package_s() {
    assert_eq!(version(), "2.2.3");
    assert_eq!(VERSION, "2.2.3");
}

#[test]
fn event_names_are_the_protocol_s() {
    assert_eq!(CONNECT_EVENT, "connect");
    assert_eq!(DISCONNECT_EVENT, "disconnect");
    assert_eq!(MESSAGE_EVENT, "message");
    assert_eq!(ERROR_EVENT, "error");
    assert_eq!(AUTHENTICATED_EVENT, "authenticated");
    assert_eq!(UNAUTHENTICATED_EVENT, "unauthenticated");
    assert_eq!(UNAUTHENTICATED_MESSAGE, "Unauthenticated");
    assert_eq!(AUTHENTICATION_TIMEOUT_MESSAGE, "Authentication timeout");
    assert_eq!(
        MISSING_CREDENTIALS_MESSAGE,
        "One of the \"apiKey\", \"bearerToken\", or \"sdkToken\" options must be specified"
    );
}

#[test]
fn constructors_make_their_variant() {
    assert_eq!(Error::websocket("w"), Error::WebSocket("w".to_string()));
    assert_eq!(Error::authentication("a"), Error::Authentication("a".to_string()));
    assert_eq!(Error::connection("c"), Error::Connection("c".to_string()));
    assert_eq!(Error::general("g"), Error::General("g".to_string()));
}

#[test]
fn every_error_describes_itself() {
    assert_eq!(Error::Http("timed out".to_string()).message(), "HTTP request failed: timed out");
    assert_eq!(Error::WebSocket("closed".to_string()).message(), "WebSocket error: closed");
    assert_eq!(Error::Json("eof".to_string()).message(), "JSON serialization error: eof");
    assert_eq!(
        Error::Authentication("bad key".to_string()).message(),
        "Authentication failed: bad key"
    );
    assert_eq!(Error::AuthenticationTimeout.message(), "Authentication timeout");
    assert_eq!(Error::MissingCredentials.message(), "Missing credentials");
    assert_eq!(Error::Unauthenticated.message(), "Unauthenticated");
    assert_eq!(
        Error::InvalidModeForChannel { channel: "candles".to_string(), mode: "speed".to_string() }
            .message(),
        "Invalid mode for channel: candles not supported in speed mode"
    );
    assert_eq!(Error::Connection("reset".to_string()).message(), "Connection error: reset");
    assert_eq!(Error::Io("denied".to_string()).message(), "IO error: denied");
    assert_eq!(Error::UrlParse("empty host".to_string()).message(), "URL parse error: empty host");
    assert_eq!(Error::General("oops".to_string()).message(), "General error: oops");
    assert_eq!(Error::General(String::new()).message(), "General error: ");
}

#[test]
fn texts_compare_by_their_characters() {
    assert!(same_text("pong", "pong"));
    assert!(same_text("", ""));
    assert!(!same_text("pong", "Pong"));
    assert!(!same_text("pong", "pon"));
    assert_eq!(clone_optional(&Some("a".to_string())), Some("a".to_string()));
    assert_eq!(clone_optional(&None), None);
}
