use r_fubon_neo::market_data::websocket::message::{OutboundMessage, PONG_EVENT};
use r_fubon_neo::market_data::websocket::{
    Credential, Param, ParamValue, ServerSignal, SubscriptionParams, WebSocketConfig,
};
use r_fubon_neo::market_data::websocket::message::classify;
use r_fubon_neo::{Error, Mode};

fn text(value: &str) -> ParamValue {
    ParamValue::Text(value.to_string())
}

#[test]
fn new_params_are_empty() {
    let params = SubscriptionParams::new();
    assert_eq!(params.len(), 0);
    assert_eq!(params.channel(), None);
    assert!(params.into_entries().is_empty());
}

#[test]
fn inserting_keeps_the_order_of_first_insertion() {
    let mut params = SubscriptionParams::new();
    params.insert("channel", text("trades"));
    params.insert("symbol", text("2330"));
    params.insert("channel", text("books"));
    assert_eq!(params.len(), 2);
    assert_eq!(params.channel(), Some("books"));
    assert_eq!(params.text("symbol"), Some("2330"));
    assert_eq!(params.text("missing"), None);
    assert_eq!(
        params.into_entries(),
        vec![
            Param { name: "channel".to_string(), value: text("books") },
            Param { name: "symbol".to_string(), value: text("2330") },
        ]
    );
}

#[test]
fn a_channel_that_is_no_text_is_no_channel() {
    let params = SubscriptionParams::new().with("channel", ParamValue::Flag(true));
    assert_eq!(params.channel(), None);
    let listed = SubscriptionParams::new().with("channel", ParamValue::TextList(vec!["a".to_string()]));
    assert_eq!(listed.channel(), None);
}

#[test]
fn params_are_copied_whole() {
    let params = SubscriptionParams::new()
        .with("channel", text("trades"))
        .with("symbols", ParamValue::TextList(vec!["2330".to_string(), "2317".to_string()]))
        .with("n", ParamValue::Integer(i64::MIN))
        .with("f", ParamValue::Flag(false))
        .with("nothing", ParamValue::Null);
    assert_eq!(params.clone(), params);
}

#[test]
fn modes_carry_their_channels() {
    assert!(!Mode::Speed.permits("candles"));
    assert!(!Mode::Speed.permits("aggregates"));
    assert!(Mode::Speed.permits("trades"));
    assert!(Mode::Speed.permits("books"));
    assert!(Mode::Speed.permits("Candles"));
    assert!(Mode::Speed.permits(""));
    assert!(Mode::Standard.permits("candles"));
    assert!(Mode::Standard.permits("aggregates"));
    assert!(Mode::Standard.permits("trades"));
    assert_eq!(Mode::Speed.as_str(), "speed");
    assert_eq!(Mode::Standard.as_str(), "standard");
}

#[test]
fn messages_name_their_event() {
    assert_eq!(OutboundMessage::Auth(Credential::ApiKey("k".to_string())).event(), "auth");
    assert_eq!(OutboundMessage::Ping { state: String::new() }.event(), "ping");
    assert_eq!(OutboundMessage::Subscribe(SubscriptionParams::new()).event(), "subscribe");
    assert_eq!(OutboundMessage::Unsubscribe(SubscriptionParams::new()).event(), "unsubscribe");
    assert_eq!(OutboundMessage::Subscriptions.event(), "subscriptions");
}

#[test]
fn messages_hold_their_data() {
    assert_eq!(
        OutboundMessage::Auth(Credential::BearerToken("b".to_string())).data(),
        Some(vec![Param { name: "token".to_string(), value: text("b") }])
    );
    assert_eq!(
        OutboundMessage::Ping { state: "x".to_string() }.data(),
        Some(vec![Param { name: "state".to_string(), value: text("x") }])
    );
    assert_eq!(
        OutboundMessage::Subscribe(SubscriptionParams::new().with("channel", text("trades"))).data(),
        Some(vec![Param { name: "channel".to_string(), value: text("trades") }])
    );
    assert_eq!(OutboundMessage::Subscriptions.data(), None);
}

#[test]
fn messages_are_encoded_as_one_object() {
    assert_eq!(
        OutboundMessage::Subscriptions.encode(),
        Ok("{\"event\":\"subscriptions\"}".to_string())
    );
    assert_eq!(
        OutboundMessage::Ping { state: "é\u{1}".to_string() }.encode(),
        Ok("{\"data\":{\"state\":\"é\\u0001\"},\"event\":\"ping\"}".to_string())
    );
    let params = SubscriptionParams::new()
        .with("symbol", text("2330"))
        .with("channel", text("trades"))
        .with("odd", ParamValue::Flag(false))
        .with("n", ParamValue::Integer(12));
    assert_eq!(
        OutboundMessage::Unsubscribe(params).encode(),
        Ok("{\"data\":{\"channel\":\"trades\",\"n\":12,\"odd\":false,\"symbol\":\"2330\"},\"event\":\"unsubscribe\"}".to_string())
    );
}

#[test]
fn signals_follow_event_and_message() {
    let some = |value: &str| Some(value.to_string());
    assert_eq!(classify(&some("authenticated"), &None), ServerSignal::Authenticated);
    assert_eq!(classify(&some("authenticated"), &some("Unauthenticated")), ServerSignal::Authenticated);
    assert_eq!(classify(&some("error"), &some("Unauthenticated")), ServerSignal::Rejected);
    assert_eq!(classify(&some("error"), &some("unauthenticated")), ServerSignal::Other);
    assert_eq!(classify(&some("error"), &None), ServerSignal::Other);
    assert_eq!(classify(&some(PONG_EVENT), &None), ServerSignal::Pong);
    assert_eq!(classify(&some("ping"), &None), ServerSignal::Other);
    assert_eq!(classify(&None, &some("Unauthenticated")), ServerSignal::Other);
    assert_eq!(classify(&None, &None), ServerSignal::Other);
}

#[test]
fn handshake_presents_the_one_credential() {
    let config = WebSocketConfig::new().with_bearer_token("b".to_string());
    assert_eq!(
        OutboundMessage::handshake(&config),
        Ok(OutboundMessage::Auth(Credential::BearerToken("b".to_string())))
    );
    let message = OutboundMessage::handshake(&config).unwrap();
    assert_eq!(message.event(), "auth");
    assert_eq!(message.data().unwrap().len(), 1);
    assert_eq!(
        OutboundMessage::handshake(&config).unwrap().encode(),
        Ok("{\"data\":{\"token\":\"b\"},\"event\":\"auth\"}".to_string())
    );
}

#[test]
fn handshake_is_refused_without_exactly_one_credential() {
    assert_eq!(OutboundMessage::handshake(&WebSocketConfig::new()), Err(Error::MissingCredentials));
    let two = WebSocketConfig::new().with_api_key("a".to_string()).with_sdk_token("s".to_string());
    assert_eq!(OutboundMessage::handshake(&two), Err(Error::MissingCredentials));
    let empty = WebSocketConfig::new().with_sdk_token(String::new());
    assert_eq!(OutboundMessage::handshake(&empty), Err(Error::MissingCredentials));
}
