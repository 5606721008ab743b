use r_fubon_neo::market_data::rest::{
    Header, Historical, Intraday, RestConfig, RestRequest, RestStockClient, Snapshot,
};
use r_fubon_neo::{Error, RestClient};

fn header(name: &str, value: &str) -> Header {
    Header { name: name.to_string(), value: value.to_string() }
}

fn sdk_config() -> RestConfig {
    RestConfig::new().with_sdk_token("s".to_string()).with_base_url("https://api.fubon.com".to_string())
}

#[test]
fn new_rest_config_is_empty() {
    let config = RestConfig::new();
    assert_eq!(config.base_url, "");
    assert_eq!(config.api_key, None);
    assert_eq!(config.bearer_token, None);
    assert_eq!(config.sdk_token, None);
}

#[test]
fn rest_builders_set_one_field_each() {
    let config = RestConfig::new()
        .with_api_key("a".to_string())
        .with_bearer_token("b".to_string())
        .with_sdk_token("s".to_string())
        .with_base_url("https://example.test".to_string());
    assert_eq!(config.base_url, "https://example.test");
    assert_eq!(config.api_key, Some("a".to_string()));
    assert_eq!(config.bearer_token, Some("b".to_string()));
    assert_eq!(config.sdk_token, Some("s".to_string()));
    assert_eq!(config.clone(), config);
}

#[test]
fn validate_accepts_exactly_one_token() {
    assert_eq!(RestConfig::new().with_api_key("a".to_string()).validate(), Ok(()));
    assert_eq!(RestConfig::new().with_bearer_token("b".to_string()).validate(), Ok(()));
    assert_eq!(RestConfig::new().with_sdk_token("s".to_string()).validate(), Ok(()));
    assert_eq!(RestConfig::new().with_sdk_token(String::new()).validate(), Ok(()));
}

#[test]
fn validate_refuses_no_token() {
    assert_eq!(RestConfig::new().validate(), Err(Error::MissingCredentials));
}

#[test]
fn validate_refuses_several_tokens() {
    let ambiguous = Err(Error::General(
        "Only one of the \"apiKey\", \"bearerToken\", or \"sdkToken\" options must be specified"
            .to_string(),
    ));
    let two = RestConfig::new().with_api_key("a".to_string()).with_sdk_token("s".to_string());
    assert_eq!(two.validate(), ambiguous);
    let three = two.with_bearer_token("b".to_string());
    assert_eq!(three.validate(), ambiguous);
}

#[test]
fn clients_are_made_only_under_a_valid_config() {
    assert!(Intraday::new(sdk_config()).is_ok());
    assert!(Historical::new(sdk_config()).is_ok());
    assert!(Snapshot::new(sdk_config()).is_ok());
    assert!(RestStockClient::new(sdk_config()).is_ok());
    assert_eq!(Intraday::new(RestConfig::new()).err(), Some(Error::MissingCredentials));
    assert_eq!(Historical::new(RestConfig::new()).err(), Some(Error::MissingCredentials));
    assert_eq!(Snapshot::new(RestConfig::new()).err(), Some(Error::MissingCredentials));
    assert_eq!(RestStockClient::new(RestConfig::new()).err(), Some(Error::MissingCredentials));
    let two = RestConfig::new().with_api_key("a".to_string()).with_sdk_token("s".to_string());
    assert!(matches!(Intraday::new(two).err(), Some(Error::General(_))));
}

#[test]
fn intraday_request_names_the_symbol() {
    let client = Intraday::new(sdk_config()).unwrap();
    assert_eq!(
        client.request("2330"),
        RestRequest {
            url: "https://api.fubon.com/intraday/2330".to_string(),
            headers: vec![header("X-SDK-Token", "s")],
            query: vec![],
        }
    );
}

#[test]
fn historical_request_carries_the_dates() {
    let config =
        RestConfig::new().with_api_key("a".to_string()).with_base_url("https://h.test".to_string());
    let client = Historical::new(config).unwrap();
    assert_eq!(
        client.request("2330", "2024-01-01", "2024-01-31"),
        RestRequest {
            url: "https://h.test/historical/2330".to_string(),
            headers: vec![header("X-API-Key", "a")],
            query: vec![header("from", "2024-01-01"), header("to", "2024-01-31")],
        }
    );
}

#[test]
fn snapshot_request_presents_the_bearer_token() {
    let config = RestConfig::new()
        .with_bearer_token("b".to_string())
        .with_base_url("https://s.test".to_string());
    let client = Snapshot::new(config).unwrap();
    assert_eq!(
        client.request("0050"),
        RestRequest {
            url: "https://s.test/snapshot/0050".to_string(),
            headers: vec![header("Authorization", "Bearer b")],
            query: vec![],
        }
    );
}

#[test]
fn headers_follow_the_first_configured_token() {
    assert!(RestConfig::new().headers().is_empty());
    let all = RestConfig::new()
        .with_sdk_token("s".to_string())
        .with_bearer_token("b".to_string())
        .with_api_key("a".to_string());
    assert_eq!(all.headers(), vec![header("X-API-Key", "a")]);
    let two = RestConfig::new().with_sdk_token("s".to_string()).with_bearer_token("b".to_string());
    assert_eq!(two.headers(), vec![header("Authorization", "Bearer b")]);
    assert_eq!(sdk_config().resource("intraday", "2330"), "https://api.fubon.com/intraday/2330");
}

#[test]
fn rest_client_reaches_the_stock_clients() {
    let client = RestClient::new("s".to_string()).unwrap();
    let stock = client.stock().unwrap();
    assert_eq!(
        stock.intraday().unwrap().request("2330").url,
        "https://api.fubon.com/intraday/2330"
    );
    assert_eq!(
        stock.historical().unwrap().request("2330", "a", "b").headers,
        vec![header("X-SDK-Token", "s")]
    );
    assert_eq!(
        stock.snapshot().unwrap().request("2330").url,
        "https://api.fubon.com/snapshot/2330"
    );
}
