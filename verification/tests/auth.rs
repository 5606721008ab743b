use r_fubon_neo::market_data::websocket::AuthenticationState::{
    Authenticated, Authenticating, Pending, Unauthenticated,
};
use r_fubon_neo::market_data::websocket::{Credential, WebSocketConfig};
use r_fubon_neo::Error;

#[test]
fn new_config_points_at_the_service_without_credential() {
    let config = WebSocketConfig::new();
    assert_eq!(config.base_url, "wss://api.fubon.com/ws");
    assert_eq!(config.api_key, None);
    assert_eq!(config.bearer_token, None);
    assert_eq!(config.sdk_token, None);
}

#[test]
fn builders_set_one_field_each() {
    let config = WebSocketConfig::new()
        .with_sdk_token("s".to_string())
        .with_api_key("a".to_string())
        .with_bearer_token("b".to_string())
        .with_base_url("wss://example.test/ws".to_string());
    assert_eq!(config.base_url, "wss://example.test/ws");
    assert_eq!(config.api_key, Some("a".to_string()));
    assert_eq!(config.bearer_token, Some("b".to_string()));
    assert_eq!(config.sdk_token, Some("s".to_string()));
    let again = config.clone().with_api_key("a2".to_string());
    assert_eq!(again.api_key, Some("a2".to_string()));
    assert_eq!(again.sdk_token, Some("s".to_string()));
    assert_eq!(config.api_key, Some("a".to_string()));
}

#[test]
fn exactly_one_credential_is_found() {
    let api = WebSocketConfig::new().with_api_key("a".to_string());
    assert_eq!(api.credential(), Ok(Credential::ApiKey("a".to_string())));
    let bearer = WebSocketConfig::new().with_bearer_token("b".to_string());
    assert_eq!(bearer.credential(), Ok(Credential::BearerToken("b".to_string())));
    let sdk = WebSocketConfig::new().with_sdk_token("s".to_string());
    assert_eq!(sdk.credential(), Ok(Credential::SdkToken("s".to_string())));
}

#[test]
fn empty_fields_do_not_count_as_credentials() {
    let only_sdk = WebSocketConfig::new()
        .with_api_key(String::new())
        .with_bearer_token(String::new())
        .with_sdk_token("s".to_string());
    assert_eq!(only_sdk.credential(), Ok(Credential::SdkToken("s".to_string())));
    let none = WebSocketConfig::new().with_api_key(String::new());
    assert_eq!(none.credential(), Err(Error::MissingCredentials));
}

#[test]
fn no_credential_or_several_are_missing_credentials() {
    assert_eq!(WebSocketConfig::new().credential(), Err(Error::MissingCredentials));
    let two = WebSocketConfig::new().with_api_key("a".to_string()).with_bearer_token("b".to_string());
    assert_eq!(two.credential(), Err(Error::MissingCredentials));
    let other_two =
        WebSocketConfig::new().with_bearer_token("b".to_string()).with_sdk_token("s".to_string());
    assert_eq!(other_two.credential(), Err(Error::MissingCredentials));
    let three = WebSocketConfig::new()
        .with_api_key("a".to_string())
        .with_bearer_token("b".to_string())
        .with_sdk_token("s".to_string());
    assert_eq!(three.credential(), Err(Error::MissingCredentials));
}

#[test]
fn credentials_name_their_field() {
    assert_eq!(Credential::ApiKey("a".to_string()).field(), "apikey");
    assert_eq!(Credential::BearerToken("b".to_string()).field(), "token");
    assert_eq!(Credential::SdkToken("s".to_string()).field(), "sdkToken");
    assert_eq!(Credential::ApiKey("a".to_string()).secret(), "a");
    assert_eq!(Credential::BearerToken("b".to_string()).secret(), "b");
    assert_eq!(Credential::SdkToken("s".to_string()).secret(), "s");
    assert_eq!(Credential::SdkToken("s".to_string()).clone(), Credential::SdkToken("s".to_string()));
}

#[test]
fn only_a_handshake_under_way_is_answered() {
    assert_eq!(Authenticating.on_acknowledged(), Authenticated);
    assert_eq!(Pending.on_acknowledged(), Pending);
    assert_eq!(Authenticated.on_acknowledged(), Authenticated);
    assert_eq!(Unauthenticated.on_acknowledged(), Unauthenticated);
    assert_eq!(Authenticating.on_rejected(), Unauthenticated);
    assert_eq!(Pending.on_rejected(), Pending);
    assert_eq!(Authenticated.on_rejected(), Authenticated);
    assert_eq!(Unauthenticated.on_rejected(), Unauthenticated);
}

#[test]
fn the_deadline_settles_what_is_unsettled() {
    assert_eq!(Authenticating.on_deadline(), Unauthenticated);
    assert_eq!(Pending.on_deadline(), Unauthenticated);
    assert_eq!(Authenticated.on_deadline(), Authenticated);
    assert_eq!(Unauthenticated.on_deadline(), Unauthenticated);
    assert!(Authenticated.settled());
    assert!(Unauthenticated.settled());
    assert!(!Pending.settled());
    assert!(!Authenticating.settled());
}
