use std::sync::{Arc, Mutex};

use r_fubon_neo::market_data::websocket::{
    AuthenticationState, EventHandler, HeartbeatStep, InboundFrame, OutboundFrame, ParamValue,
    ReadStep, ServerSignal, SubscriptionParams, TransportFault, WebSocketClient, WebSocketConfig,
    WebSocketEvent, WritePath,
};
use r_fubon_neo::{Error, Mode};

type Log = Arc<Mutex<Vec<(usize, WebSocketEvent)>>>;

struct Recorder {
    id: usize,
    log: Log,
}

impl EventHandler for Recorder {
    fn handle_event(&self, event: WebSocketEvent) {
        self.log.lock().unwrap().push((self.id, event));
    }
}

fn client_with_handlers(mode: Mode, count: usize) -> (WebSocketClient<Recorder>, Log) {
    let log: Log = Arc::new(Mutex::new(Vec::new()));
    let mut client = WebSocketClient::new(mode, "token-1".to_string()).unwrap();
    for id in 0..count {
        client.add_event_handler(Recorder { id, log: log.clone() });
    }
    (client, log)
}

fn connected(mode: Mode) -> WebSocketClient<Recorder> {
    let (mut client, _) = client_with_handlers(mode, 0);
    assert_eq!(client.transport_opened(), Ok(()));
    let handshake = client.take_outbound();
    assert_eq!(handshake.len(), 1);
    client
}

fn json_of(frame: &OutboundFrame) -> serde_json::Value {
    match frame {
        OutboundFrame::Text(text) => serde_json::from_str(text).unwrap(),
        OutboundFrame::Close => panic!("a closing frame holds no text"),
    }
}

fn object(members: Vec<(&str, serde_json::Value)>) -> serde_json::Value {
    let mut map = serde_json::Map::new();
    for (name, value) in members {
        map.insert(name.to_string(), value);
    }
    serde_json::Value::Object(map)
}

fn text(value: &str) -> serde_json::Value {
    serde_json::Value::from(value)
}

fn trades_of(symbol: &str) -> SubscriptionParams {
    SubscriptionParams::new()
        .with("channel", ParamValue::Text("trades".to_string()))
        .with("symbol", ParamValue::Text(symbol.to_string()))
}

fn channel(name: &str) -> SubscriptionParams {
    SubscriptionParams::new()
        .with("channel", ParamValue::Text(name.to_string()))
        .with("symbol", ParamValue::Text("2330".to_string()))
}

#[test]
fn new_client_is_pending_and_not_connected() {
    let (client, _) = client_with_handlers(Mode::Speed, 0);
    assert_eq!(client.auth_state(), AuthenticationState::Pending);
    assert_eq!(client.write_path(), WritePath::Absent);
    assert_eq!(client.missed_pongs(), 0);
    assert_eq!(client.queued(), 0);
    assert_eq!(client.handler_count(), 0);
    assert_eq!(client.mode(), Mode::Speed);
}

#[test]
fn handshake_carries_the_sdk_token() {
    let (mut client, _) = client_with_handlers(Mode::Speed, 0);
    assert_eq!(client.transport_opened(), Ok(()));
    assert_eq!(client.auth_state(), AuthenticationState::Authenticating);
    assert_eq!(client.write_path(), WritePath::Open);
    let frames = client.take_outbound();
    assert_eq!(frames.len(), 1);
    let expected = object(vec![
        ("event", text("auth")),
        ("data", object(vec![("sdkToken", text("token-1"))])),
    ]);
    assert_eq!(json_of(&frames[0]), expected);
    assert_eq!(client.queued(), 0);
}

#[test]
fn handshake_carries_the_api_key() {
    let config = WebSocketConfig::new().with_api_key("key-1".to_string());
    let mut client: WebSocketClient<Recorder> = WebSocketClient::with_config(Mode::Standard, config);
    assert_eq!(client.transport_opened(), Ok(()));
    let frames = client.take_outbound();
    let expected =
        object(vec![("event", text("auth")), ("data", object(vec![("apikey", text("key-1"))]))]);
    assert_eq!(json_of(&frames[0]), expected);
}

#[test]
fn handshake_carries_the_bearer_token() {
    let config = WebSocketConfig::new().with_bearer_token("bearer-1".to_string());
    let mut client: WebSocketClient<Recorder> = WebSocketClient::with_config(Mode::Standard, config);
    assert_eq!(client.transport_opened(), Ok(()));
    let frames = client.take_outbound();
    let expected =
        object(vec![("event", text("auth")), ("data", object(vec![("token", text("bearer-1"))]))]);
    assert_eq!(json_of(&frames[0]), expected);
}

#[test]
fn handshake_escapes_the_credential() {
    let config = WebSocketConfig::new().with_api_key("a\"b\\c\n".to_string());
    let mut client: WebSocketClient<Recorder> = WebSocketClient::with_config(Mode::Standard, config);
    assert_eq!(client.transport_opened(), Ok(()));
    let frames = client.take_outbound();
    match &frames[0] {
        OutboundFrame::Text(text) => {
            assert_eq!(text, "{\"data\":{\"apikey\":\"a\\\"b\\\\c\\n\"},\"event\":\"auth\"}")
        }
        OutboundFrame::Close => panic!("the handshake is a text frame"),
    }
}

#[test]
fn handshake_without_credential_sends_nothing() {
    let mut client: WebSocketClient<Recorder> =
        WebSocketClient::with_config(Mode::Standard, WebSocketConfig::new());
    assert_eq!(client.transport_opened(), Err(Error::MissingCredentials));
    assert_eq!(client.auth_state(), AuthenticationState::Unauthenticated);
    assert_eq!(client.queued(), 0);
    assert_eq!(client.write_path(), WritePath::Closed);
}

#[test]
fn handshake_with_empty_credential_sends_nothing() {
    let mut client: WebSocketClient<Recorder> =
        WebSocketClient::new(Mode::Standard, String::new()).unwrap();
    assert_eq!(client.handle_authentication(), Err(Error::MissingCredentials));
    assert_eq!(client.auth_state(), AuthenticationState::Unauthenticated);
    assert_eq!(client.queued(), 0);
}

#[test]
fn handshake_with_two_credentials_sends_nothing() {
    let config = WebSocketConfig::new()
        .with_api_key("key-1".to_string())
        .with_sdk_token("token-1".to_string());
    let mut client: WebSocketClient<Recorder> = WebSocketClient::with_config(Mode::Standard, config);
    assert_eq!(client.transport_opened(), Err(Error::MissingCredentials));
    assert_eq!(client.auth_state(), AuthenticationState::Unauthenticated);
    assert_eq!(client.queued(), 0);
}

#[test]
fn handshake_without_write_path_is_not_connected() {
    let (mut client, _) = client_with_handlers(Mode::Speed, 0);
    assert_eq!(
        client.handle_authentication(),
        Err(Error::WebSocket("WebSocket not connected".to_string()))
    );
    assert_eq!(client.auth_state(), AuthenticationState::Pending);
}

#[test]
fn failed_encoding_of_the_handshake_is_reported() {
    let (mut client, _) = client_with_handlers(Mode::Speed, 0);
    client.link();
    assert_eq!(
        client.handshake_with(Err("key must be a string".to_string())),
        Err(Error::Json("key must be a string".to_string()))
    );
    assert_eq!(client.auth_state(), AuthenticationState::Pending);
    assert_eq!(client.queued(), 0);
    assert_eq!(
        client.settle_opening(Err(Error::Json("key must be a string".to_string()))),
        Err(Error::Json("key must be a string".to_string()))
    );
    assert_eq!(client.write_path(), WritePath::Closed);
}

#[test]
fn acknowledgement_authenticates() {
    let (mut client, log) = client_with_handlers(Mode::Speed, 1);
    client.transport_opened().unwrap();
    let frame = InboundFrame::text("{\"event\":\"authenticated\",\"data\":{}}".to_string());
    assert_eq!(client.on_frame(&frame), ReadStep::Continue);
    assert_eq!(client.auth_state(), AuthenticationState::Authenticated);
    assert_eq!(client.poll_authentication(), Some(Ok(())));
    let seen = log.lock().unwrap().clone();
    assert_eq!(
        seen,
        vec![
            (0, WebSocketEvent::Connect),
            (0, WebSocketEvent::Message("{\"event\":\"authenticated\",\"data\":{}}".to_string())),
            (
                0,
                WebSocketEvent::Authenticated(
                    "{\"event\":\"authenticated\",\"data\":{}}".to_string()
                )
            ),
        ]
    );
}

#[test]
fn rejection_unauthenticates() {
    let (mut client, log) = client_with_handlers(Mode::Speed, 1);
    client.transport_opened().unwrap();
    let raw = "{\"event\":\"error\",\"data\":{\"message\":\"Unauthenticated\"}}";
    let frame = InboundFrame::text(raw.to_string());
    assert_eq!(client.on_frame(&frame), ReadStep::Continue);
    assert_eq!(client.auth_state(), AuthenticationState::Unauthenticated);
    assert_eq!(client.poll_authentication(), Some(Err(Error::Unauthenticated)));
    let seen = log.lock().unwrap().clone();
    assert_eq!(seen.len(), 3);
    assert_eq!(seen[1], (0, WebSocketEvent::Message(raw.to_string())));
    assert_eq!(seen[2], (0, WebSocketEvent::Unauthenticated(raw.to_string())));
}

#[test]
fn other_errors_do_not_unauthenticate() {
    let (mut client, log) = client_with_handlers(Mode::Speed, 1);
    client.transport_opened().unwrap();
    let raw = "{\"event\":\"error\",\"data\":{\"message\":\"Invalid channel\"}}";
    assert_eq!(client.on_frame(&InboundFrame::text(raw.to_string())), ReadStep::Continue);
    assert_eq!(client.auth_state(), AuthenticationState::Authenticating);
    assert_eq!(client.poll_authentication(), None);
    assert_eq!(log.lock().unwrap().len(), 2);
}

#[test]
fn frames_are_decoded_by_their_event() {
    let signal = |raw: &str| match InboundFrame::text(raw.to_string()) {
        InboundFrame::Text { signal, .. } => signal,
        _ => panic!("a text frame was made"),
    };
    assert_eq!(signal("{\"event\":\"authenticated\"}"), ServerSignal::Authenticated);
    assert_eq!(signal("{\"event\":\"pong\",\"data\":{\"state\":\"\"}}"), ServerSignal::Pong);
    assert_eq!(
        signal("{\"event\":\"error\",\"data\":{\"message\":\"Unauthenticated\"}}"),
        ServerSignal::Rejected
    );
    assert_eq!(signal("{\"event\":\"error\",\"data\":{\"message\":7}}"), ServerSignal::Other);
    assert_eq!(signal("{\"event\":\"error\",\"data\":[]}"), ServerSignal::Other);
    assert_eq!(signal("{\"event\":\"error\"}"), ServerSignal::Other);
    assert_eq!(signal("{\"event\":\"data\",\"data\":{\"price\":1}}"), ServerSignal::Other);
    assert_eq!(signal("{\"event\":7}"), ServerSignal::Other);
    assert_eq!(signal("[\"authenticated\"]"), ServerSignal::Other);
    assert_eq!(signal("authenticated"), ServerSignal::Other);
    assert_eq!(signal("pong"), ServerSignal::Other);
    assert_eq!(signal(""), ServerSignal::Other);
}

#[test]
fn text_that_is_no_message_is_still_delivered() {
    let (mut client, log) = client_with_handlers(Mode::Speed, 2);
    client.transport_opened().unwrap();
    assert_eq!(client.on_frame(&InboundFrame::text("not json".to_string())), ReadStep::Continue);
    let seen = log.lock().unwrap().clone();
    assert_eq!(seen.len(), 4);
    assert_eq!(seen[2], (0, WebSocketEvent::Message("not json".to_string())));
    assert_eq!(seen[3], (1, WebSocketEvent::Message("not json".to_string())));
    assert_eq!(client.auth_state(), AuthenticationState::Authenticating);
}

#[test]
fn late_answers_do_not_move_a_settled_state() {
    let (mut client, log) = client_with_handlers(Mode::Speed, 1);
    client.transport_opened().unwrap();
    let ack = InboundFrame::text("{\"event\":\"authenticated\"}".to_string());
    let reject =
        InboundFrame::text("{\"event\":\"error\",\"data\":{\"message\":\"Unauthenticated\"}}".to_string());
    client.on_frame(&ack);
    client.on_frame(&reject);
    assert_eq!(client.auth_state(), AuthenticationState::Authenticated);
    assert_eq!(log.lock().unwrap().len(), 5);

    let (mut pending, _) = client_with_handlers(Mode::Speed, 0);
    pending.on_frame(&ack);
    assert_eq!(pending.auth_state(), AuthenticationState::Pending);
}

#[test]
fn closing_frame_is_delivered_and_stops_the_reader() {
    let (mut client, log) = client_with_handlers(Mode::Speed, 1);
    let frame = InboundFrame::Close { code: Some(1000), reason: "bye".to_string() };
    assert_eq!(client.on_frame(&frame), ReadStep::Stop);
    let bare = InboundFrame::Close { code: None, reason: String::new() };
    assert_eq!(client.on_frame(&bare), ReadStep::Stop);
    let seen = log.lock().unwrap().clone();
    assert_eq!(
        seen,
        vec![
            (0, WebSocketEvent::Disconnect { code: Some(1000), reason: "bye".to_string() }),
            (0, WebSocketEvent::Disconnect { code: None, reason: String::new() }),
        ]
    );
}

#[test]
fn failure_is_delivered_and_stops_the_reader() {
    let (mut client, log) = client_with_handlers(Mode::Speed, 1);
    let frame = InboundFrame::Failure("connection reset".to_string());
    assert_eq!(client.on_frame(&frame), ReadStep::Stop);
    let seen = log.lock().unwrap().clone();
    assert_eq!(seen, vec![(0, WebSocketEvent::Error("connection reset".to_string()))]);
}

#[test]
fn malformed_frame_is_delivered_and_the_reader_goes_on() {
    let (mut client, log) = client_with_handlers(Mode::Speed, 1);
    client.transport_opened().unwrap();
    let frame = InboundFrame::Malformed("reserved bits are non-zero".to_string());
    assert_eq!(client.on_frame(&frame), ReadStep::Continue);
    let seen = log.lock().unwrap().clone();
    assert_eq!(seen.len(), 2);
    assert_eq!(seen[1], (0, WebSocketEvent::Error("reserved bits are non-zero".to_string())));
    assert_eq!(client.auth_state(), AuthenticationState::Authenticating);
    assert_eq!(client.write_path(), WritePath::Open);
    let arrivals = vec![frame, InboundFrame::text("{\"event\":\"authenticated\"}".to_string())];
    assert_eq!(client.await_authentication(&arrivals), Ok(()));
}

#[test]
fn only_malformed_frames_let_the_reading_go_on() {
    let description = || "what the transport says".to_string();
    for kind in [TransportFault::Protocol, TransportFault::Utf8] {
        assert!(kind.malformation());
        assert_eq!(InboundFrame::fault(kind, description()), InboundFrame::Malformed(description()));
    }
    for kind in [
        TransportFault::ConnectionClosed,
        TransportFault::AlreadyClosed,
        TransportFault::Io,
        TransportFault::Tls,
        TransportFault::Capacity,
        TransportFault::WriteBufferFull,
        TransportFault::AttackAttempt,
        TransportFault::Url,
        TransportFault::Http,
        TransportFault::HttpFormat,
        TransportFault::Other,
    ] {
        assert!(!kind.malformation());
        assert_eq!(InboundFrame::fault(kind, description()), InboundFrame::Failure(description()));
    }
    let (mut client, _) = client_with_handlers(Mode::Speed, 0);
    let malformed = InboundFrame::fault(TransportFault::Protocol, description());
    assert_eq!(client.on_frame(&malformed), ReadStep::Continue);
    let failed = InboundFrame::fault(TransportFault::Io, description());
    assert_eq!(client.on_frame(&failed), ReadStep::Stop);
}

#[test]
fn text_given_as_text_is_decoded_and_delivered() {
    let (mut client, log) = client_with_handlers(Mode::Speed, 1);
    client.transport_opened().unwrap();
    assert_eq!(client.on_text("{\"event\":\"authenticated\"}".to_string()), ReadStep::Continue);
    assert_eq!(client.auth_state(), AuthenticationState::Authenticated);
    assert_eq!(client.on_text("no message".to_string()), ReadStep::Continue);
    let seen = log.lock().unwrap().clone();
    assert_eq!(seen.len(), 4);
    assert_eq!(seen[1], (0, WebSocketEvent::Message("{\"event\":\"authenticated\"}".to_string())));
    assert_eq!(
        seen[2],
        (0, WebSocketEvent::Authenticated("{\"event\":\"authenticated\"}".to_string()))
    );
    assert_eq!(seen[3], (0, WebSocketEvent::Message("no message".to_string())));
}

#[test]
fn binary_and_control_frames_change_nothing() {
    let (mut client, log) = client_with_handlers(Mode::Speed, 1);
    assert_eq!(client.on_frame(&InboundFrame::Binary(vec![1, 2, 3])), ReadStep::Continue);
    assert_eq!(client.on_frame(&InboundFrame::Control), ReadStep::Continue);
    assert!(log.lock().unwrap().is_empty());
    assert_eq!(client.auth_state(), AuthenticationState::Pending);
}

#[test]
fn subscribe_in_speed_mode_refuses_candles_and_aggregates() {
    let mut client = connected(Mode::Speed);
    assert_eq!(
        client.subscribe(channel("candles")),
        Err(Error::InvalidModeForChannel {
            channel: "candles".to_string(),
            mode: "speed".to_string()
        })
    );
    assert_eq!(
        client.subscribe(channel("aggregates")),
        Err(Error::InvalidModeForChannel {
            channel: "aggregates".to_string(),
            mode: "speed".to_string()
        })
    );
    assert_eq!(client.queued(), 0);
    assert_eq!(client.auth_state(), AuthenticationState::Authenticating);
}

#[test]
fn subscribe_in_speed_mode_is_refused_before_the_connection_is_looked_at() {
    let (mut client, _) = client_with_handlers(Mode::Speed, 0);
    assert_eq!(
        client.subscribe(channel("candles")),
        Err(Error::InvalidModeForChannel {
            channel: "candles".to_string(),
            mode: "speed".to_string()
        })
    );
}

#[test]
fn subscribe_in_standard_mode_sends_one_frame() {
    let mut client = connected(Mode::Standard);
    assert_eq!(client.subscribe(channel("candles")), Ok(()));
    let frames = client.take_outbound();
    assert_eq!(frames.len(), 1);
    let expected = object(vec![
        ("event", text("subscribe")),
        ("data", object(vec![("channel", text("candles")), ("symbol", text("2330"))])),
    ]);
    assert_eq!(json_of(&frames[0]), expected);
    assert_eq!(client.subscribe(channel("aggregates")), Ok(()));
    assert_eq!(client.queued(), 1);
}

#[test]
fn subscribe_in_speed_mode_sends_other_channels() {
    let mut client = connected(Mode::Speed);
    assert_eq!(client.subscribe(trades_of("2330")), Ok(()));
    assert_eq!(client.subscribe(SubscriptionParams::new()), Ok(()));
    let numbered = SubscriptionParams::new().with("channel", ParamValue::Integer(7));
    assert_eq!(client.subscribe(numbered), Ok(()));
    let frames = client.take_outbound();
    assert_eq!(frames.len(), 3);
    assert_eq!(
        json_of(&frames[0]),
        object(vec![
            ("event", text("subscribe")),
            ("data", object(vec![("channel", text("trades")), ("symbol", text("2330"))])),
        ])
    );
    assert_eq!(
        json_of(&frames[1]),
        object(vec![("event", text("subscribe")), ("data", object(vec![]))])
    );
    assert_eq!(
        json_of(&frames[2]),
        object(vec![
            ("event", text("subscribe")),
            ("data", object(vec![("channel", serde_json::Value::from(7))])),
        ])
    );
}

#[test]
fn subscribe_carries_every_kind_of_value() {
    let mut client = connected(Mode::Standard);
    let params = SubscriptionParams::new()
        .with("channel", ParamValue::Text("trades".to_string()))
        .with("symbols", ParamValue::TextList(vec!["2330".to_string(), "2317".to_string()]))
        .with("intradayOddLot", ParamValue::Flag(true))
        .with("depth", ParamValue::Integer(-5))
        .with("after", ParamValue::Null);
    assert_eq!(client.subscribe(params), Ok(()));
    let frames = client.take_outbound();
    let expected = object(vec![
        ("event", text("subscribe")),
        (
            "data",
            object(vec![
                ("channel", text("trades")),
                ("symbols", serde_json::Value::Array(vec![text("2330"), text("2317")])),
                ("intradayOddLot", serde_json::Value::Bool(true)),
                ("depth", serde_json::Value::from(-5)),
                ("after", serde_json::Value::Null),
            ]),
        ),
    ]);
    assert_eq!(json_of(&frames[0]), expected);
}

#[test]
fn unsubscribe_is_sent_in_every_mode() {
    let mut client = connected(Mode::Speed);
    assert_eq!(client.unsubscribe(channel("candles")), Ok(()));
    let frames = client.take_outbound();
    assert_eq!(frames.len(), 1);
    assert_eq!(
        json_of(&frames[0]),
        object(vec![
            ("event", text("unsubscribe")),
            ("data", object(vec![("channel", text("candles")), ("symbol", text("2330"))])),
        ])
    );
}

#[test]
fn subscriptions_request_has_no_data() {
    let mut client = connected(Mode::Speed);
    assert_eq!(client.subscriptions(), Ok(()));
    let frames = client.take_outbound();
    assert_eq!(frames, vec![OutboundFrame::Text("{\"event\":\"subscriptions\"}".to_string())]);
}

#[test]
fn ping_carries_the_tag() {
    let mut client = connected(Mode::Speed);
    assert_eq!(client.ping("tag-1"), Ok(()));
    let frames = client.take_outbound();
    assert_eq!(
        json_of(&frames[0]),
        object(vec![("event", text("ping")), ("data", object(vec![("state", text("tag-1"))]))])
    );
    assert_eq!(client.missed_pongs(), 0);
}

#[test]
fn sends_fail_without_a_write_path() {
    let (mut client, _) = client_with_handlers(Mode::Standard, 0);
    let not_connected = Err(Error::WebSocket("WebSocket not connected".to_string()));
    assert_eq!(client.ping(""), not_connected);
    assert_eq!(client.subscribe(trades_of("2330")), not_connected);
    assert_eq!(client.unsubscribe(trades_of("2330")), not_connected);
    assert_eq!(client.subscriptions(), not_connected);
    assert_eq!(client.send_encoded(Ok("{}".to_string())), not_connected);
    assert_eq!(client.send_encoded(Err("broken".to_string())), not_connected);
    assert_eq!(client.queued(), 0);
}

#[test]
fn sends_fail_on_a_closed_write_path() {
    let mut client = connected(Mode::Standard);
    client.writer_closed();
    assert_eq!(client.write_path(), WritePath::Closed);
    let failed = Err(Error::WebSocket("Failed to send message".to_string()));
    assert_eq!(client.ping(""), failed);
    assert_eq!(client.subscribe(trades_of("2330")), failed);
    assert_eq!(client.send_encoded(Err("broken".to_string())), Err(Error::Json("broken".to_string())));
    assert_eq!(client.queued(), 0);
}

#[test]
fn writer_closed_touches_only_an_open_write_path() {
    let (mut client, _) = client_with_handlers(Mode::Standard, 0);
    client.writer_closed();
    assert_eq!(client.write_path(), WritePath::Absent);
}

#[test]
fn failed_encoding_is_reported_and_sends_nothing() {
    let mut client = connected(Mode::Standard);
    assert_eq!(
        client.send_encoded(Err("key must be a string".to_string())),
        Err(Error::Json("key must be a string".to_string()))
    );
    assert_eq!(client.queued(), 0);
    assert_eq!(client.send_encoded(Ok("{}".to_string())), Ok(()));
    assert_eq!(client.take_outbound(), vec![OutboundFrame::Text("{}".to_string())]);
}

#[test]
fn frames_leave_in_the_order_of_sending() {
    let mut client = connected(Mode::Standard);
    client.ping("a").unwrap();
    client.subscriptions().unwrap();
    client.ping("b").unwrap();
    let frames = client.take_outbound();
    assert_eq!(frames.len(), 3);
    assert_eq!(json_of(&frames[0])["data"]["state"], text("a"));
    assert_eq!(json_of(&frames[1])["event"], text("subscriptions"));
    assert_eq!(json_of(&frames[2])["data"]["state"], text("b"));
    assert!(client.take_outbound().is_empty());
}

#[test]
fn heartbeat_counts_probes_and_stops_after_the_third() {
    let mut client = connected(Mode::Speed);
    assert_eq!(client.heartbeat_tick(), HeartbeatStep::Probed);
    assert_eq!(client.missed_pongs(), 1);
    assert_eq!(client.queued(), 1);
    assert_eq!(client.heartbeat_tick(), HeartbeatStep::Probed);
    assert_eq!(client.missed_pongs(), 2);
    assert_eq!(client.queued(), 2);
    assert_eq!(client.heartbeat_tick(), HeartbeatStep::Expired);
    assert_eq!(client.missed_pongs(), 3);
    assert_eq!(client.queued(), 3);
    assert_eq!(client.write_path(), WritePath::Open);
    assert_eq!(client.auth_state(), AuthenticationState::Authenticating);
    assert_eq!(client.heartbeat_tick(), HeartbeatStep::Halted);
    assert_eq!(client.heartbeat_tick(), HeartbeatStep::Halted);
    assert_eq!(client.missed_pongs(), 3);
    let frames = client.take_outbound();
    assert_eq!(frames.len(), 3);
    for frame in frames.iter() {
        assert_eq!(
            json_of(frame),
            object(vec![("event", text("ping")), ("data", object(vec![("state", text(""))]))])
        );
    }
    assert_eq!(client.ping("still open"), Ok(()));
}

#[test]
fn an_expired_heartbeat_followed_by_disconnect_closes_the_session() {
    let mut client = connected(Mode::Speed);
    client.heartbeat_tick();
    client.heartbeat_tick();
    assert_eq!(client.heartbeat_tick(), HeartbeatStep::Expired);
    client.disconnect();
    assert_eq!(client.write_path(), WritePath::Absent);
    assert_eq!(client.auth_state(), AuthenticationState::Pending);
    assert_eq!(client.missed_pongs(), 0);
    let frames = client.take_outbound();
    assert_eq!(frames.len(), 4);
    assert_eq!(frames[3], OutboundFrame::Close);
    assert_eq!(client.heartbeat_tick(), HeartbeatStep::Halted);
    assert_eq!(client.queued(), 0);
}

#[test]
fn pong_clears_the_count() {
    let mut client = connected(Mode::Speed);
    let pong = InboundFrame::text("{\"event\":\"pong\",\"data\":{\"state\":\"\"}}".to_string());
    client.heartbeat_tick();
    client.heartbeat_tick();
    assert_eq!(client.missed_pongs(), 2);
    client.on_frame(&pong);
    assert_eq!(client.missed_pongs(), 0);
    assert_eq!(client.heartbeat_tick(), HeartbeatStep::Probed);
    assert_eq!(client.missed_pongs(), 1);
    assert_eq!(client.heartbeat_tick(), HeartbeatStep::Probed);
    client.on_frame(&pong);
    assert_eq!(client.heartbeat_tick(), HeartbeatStep::Probed);
    assert_eq!(client.heartbeat_tick(), HeartbeatStep::Probed);
    assert_eq!(client.missed_pongs(), 2);
    assert_eq!(client.heartbeat_tick(), HeartbeatStep::Expired);
    assert_eq!(client.missed_pongs(), 3);
    client.on_frame(&pong);
    assert_eq!(client.missed_pongs(), 0);
    assert_eq!(client.heartbeat_tick(), HeartbeatStep::Halted);
    assert_eq!(client.queued(), 7);
}

#[test]
fn heartbeat_halts_silently_without_a_write_path() {
    let (mut idle, _) = client_with_handlers(Mode::Speed, 0);
    assert_eq!(idle.heartbeat_tick(), HeartbeatStep::Halted);
    assert_eq!(idle.queued(), 0);

    let mut client = connected(Mode::Speed);
    client.heartbeat_tick();
    client.disconnect();
    client.take_outbound();
    assert_eq!(client.heartbeat_tick(), HeartbeatStep::Halted);
    assert_eq!(client.heartbeat_tick(), HeartbeatStep::Halted);
    assert_eq!(client.missed_pongs(), 0);
    assert_eq!(client.queued(), 0);
}

#[test]
fn heartbeat_halts_when_the_write_path_is_closed() {
    let mut client = connected(Mode::Speed);
    client.writer_closed();
    assert_eq!(client.heartbeat_tick(), HeartbeatStep::Halted);
    assert_eq!(client.missed_pongs(), 0);
    assert_eq!(client.heartbeat_probe(Ok("{}".to_string())), HeartbeatStep::Halted);
}

#[test]
fn heartbeat_halts_when_the_probe_cannot_be_encoded() {
    let mut client = connected(Mode::Speed);
    assert_eq!(client.heartbeat_probe(Err("broken".to_string())), HeartbeatStep::Halted);
    assert_eq!(client.missed_pongs(), 0);
    assert_eq!(client.queued(), 0);
    assert_eq!(client.heartbeat_probe(Ok("{}".to_string())), HeartbeatStep::Halted);
}

#[test]
fn disconnect_queues_the_closing_frame_and_resets() {
    let mut client = connected(Mode::Speed);
    client.on_frame(&InboundFrame::text("{\"event\":\"authenticated\"}".to_string()));
    client.heartbeat_tick();
    client.take_outbound();
    client.disconnect();
    assert_eq!(client.auth_state(), AuthenticationState::Pending);
    assert_eq!(client.missed_pongs(), 0);
    assert_eq!(client.write_path(), WritePath::Absent);
    assert_eq!(client.take_outbound(), vec![OutboundFrame::Close]);
    assert_eq!(client.ping(""), Err(Error::WebSocket("WebSocket not connected".to_string())));
}

#[test]
fn disconnect_twice_is_disconnect_once() {
    let mut client = connected(Mode::Speed);
    client.disconnect();
    client.disconnect();
    assert_eq!(client.auth_state(), AuthenticationState::Pending);
    assert_eq!(client.write_path(), WritePath::Absent);
    assert_eq!(client.take_outbound(), vec![OutboundFrame::Close]);
}

#[test]
fn disconnect_on_a_client_that_never_connected_changes_nothing() {
    let (mut client, log) = client_with_handlers(Mode::Speed, 1);
    client.disconnect();
    assert_eq!(client.auth_state(), AuthenticationState::Pending);
    assert_eq!(client.write_path(), WritePath::Absent);
    assert_eq!(client.missed_pongs(), 0);
    assert_eq!(client.queued(), 0);
    assert!(log.lock().unwrap().is_empty());
}

#[test]
fn disconnect_on_a_closed_write_path_queues_nothing() {
    let mut client = connected(Mode::Speed);
    client.writer_closed();
    client.disconnect();
    assert_eq!(client.queued(), 0);
    assert_eq!(client.write_path(), WritePath::Absent);
}

#[test]
fn deadline_forces_an_unsettled_session_to_unauthenticated() {
    let mut client = connected(Mode::Speed);
    assert_eq!(client.poll_authentication(), None);
    assert_eq!(client.authentication_deadline(), Err(Error::AuthenticationTimeout));
    assert_eq!(client.auth_state(), AuthenticationState::Unauthenticated);
    assert_eq!(client.authentication_deadline(), Err(Error::Unauthenticated));

    let mut settled = connected(Mode::Speed);
    settled.on_frame(&InboundFrame::text("{\"event\":\"authenticated\"}".to_string()));
    assert_eq!(settled.authentication_deadline(), Ok(()));
    assert_eq!(settled.auth_state(), AuthenticationState::Authenticated);
}

#[test]
fn connect_succeeds_when_the_server_acknowledges() {
    let (mut client, log) = client_with_handlers(Mode::Speed, 1);
    let arrivals = vec![
        InboundFrame::text("{\"event\":\"hello\"}".to_string()),
        InboundFrame::text("{\"event\":\"authenticated\"}".to_string()),
        InboundFrame::text("{\"event\":\"late\"}".to_string()),
    ];
    assert_eq!(client.connect(Ok(()), &arrivals), Ok(()));
    assert_eq!(client.auth_state(), AuthenticationState::Authenticated);
    assert_eq!(client.write_path(), WritePath::Open);
    assert_eq!(client.queued(), 1);
    let seen = log.lock().unwrap().clone();
    assert_eq!(seen.len(), 4);
    assert_eq!(seen[0], (0, WebSocketEvent::Connect));
    assert_eq!(seen[3], (0, WebSocketEvent::Authenticated("{\"event\":\"authenticated\"}".to_string())));
    assert_eq!(client.heartbeat_tick(), HeartbeatStep::Probed);
}

#[test]
fn connect_fails_when_the_server_rejects() {
    let (mut client, _) = client_with_handlers(Mode::Speed, 0);
    let arrivals = vec![InboundFrame::text(
        "{\"event\":\"error\",\"data\":{\"message\":\"Unauthenticated\"}}".to_string(),
    )];
    assert_eq!(client.connect(Ok(()), &arrivals), Err(Error::Unauthenticated));
    assert_eq!(client.auth_state(), AuthenticationState::Unauthenticated);
    assert_eq!(client.write_path(), WritePath::Open);
}

#[test]
fn connect_times_out_when_the_server_never_answers() {
    let (mut client, log) = client_with_handlers(Mode::Speed, 1);
    assert_eq!(client.connect(Ok(()), &Vec::new()), Err(Error::AuthenticationTimeout));
    assert_eq!(client.auth_state(), AuthenticationState::Unauthenticated);
    assert_eq!(log.lock().unwrap().clone(), vec![(0, WebSocketEvent::Connect)]);
}

#[test]
fn connect_times_out_when_only_other_frames_arrive() {
    let (mut client, _) = client_with_handlers(Mode::Speed, 0);
    let arrivals = vec![
        InboundFrame::text("{\"event\":\"pong\"}".to_string()),
        InboundFrame::Binary(vec![0]),
        InboundFrame::text("{\"event\":\"error\",\"data\":{\"message\":\"busy\"}}".to_string()),
    ];
    assert_eq!(client.connect(Ok(()), &arrivals), Err(Error::AuthenticationTimeout));
    assert_eq!(client.auth_state(), AuthenticationState::Unauthenticated);
}

#[test]
fn connect_times_out_when_the_connection_closes_first() {
    let (mut client, log) = client_with_handlers(Mode::Speed, 1);
    let arrivals = vec![
        InboundFrame::Close { code: Some(1008), reason: "policy".to_string() },
        InboundFrame::text("{\"event\":\"authenticated\"}".to_string()),
    ];
    assert_eq!(client.connect(Ok(()), &arrivals), Err(Error::AuthenticationTimeout));
    assert_eq!(client.auth_state(), AuthenticationState::Unauthenticated);
    assert_eq!(log.lock().unwrap().len(), 2);
}

#[test]
fn connect_reports_a_transport_that_did_not_open() {
    let (mut client, log) = client_with_handlers(Mode::Speed, 1);
    assert_eq!(
        client.connect(Err("connection refused".to_string()), &Vec::new()),
        Err(Error::WebSocket("Failed to connect: connection refused".to_string()))
    );
    assert_eq!(client.auth_state(), AuthenticationState::Pending);
    assert_eq!(client.write_path(), WritePath::Absent);
    assert!(log.lock().unwrap().is_empty());
}

#[test]
fn connect_reports_an_address_that_is_no_url() {
    let config =
        WebSocketConfig::new().with_sdk_token("t".to_string()).with_base_url("api.fubon.com/ws".to_string());
    let mut client: WebSocketClient<Recorder> = WebSocketClient::with_config(Mode::Speed, config);
    assert_eq!(
        client.connect(Ok(()), &Vec::new()),
        Err(Error::UrlParse("relative URL without a base".to_string()))
    );
    assert_eq!(client.auth_state(), AuthenticationState::Pending);
    assert_eq!(client.write_path(), WritePath::Absent);
}

#[test]
fn connect_without_credential_fails_before_any_send() {
    let mut client: WebSocketClient<Recorder> =
        WebSocketClient::with_config(Mode::Speed, WebSocketConfig::new());
    let arrivals = vec![InboundFrame::text("{\"event\":\"authenticated\"}".to_string())];
    assert_eq!(client.connect(Ok(()), &arrivals), Err(Error::MissingCredentials));
    assert_eq!(client.auth_state(), AuthenticationState::Unauthenticated);
    assert_eq!(client.queued(), 0);
}

#[test]
fn connect_target_is_the_parsed_address() {
    let (client, _) = client_with_handlers(Mode::Speed, 0);
    assert_eq!(client.connect_target(), Ok("wss://api.fubon.com/ws".to_string()));
    let config = WebSocketConfig::new().with_base_url("WSS://API.Fubon.com:443/ws/../v1".to_string());
    let shouting: WebSocketClient<Recorder> = WebSocketClient::with_config(Mode::Speed, config);
    assert_eq!(shouting.connect_target(), Ok("wss://api.fubon.com/v1".to_string()));
    let empty: WebSocketClient<Recorder> = WebSocketClient::with_config(
        Mode::Speed,
        WebSocketConfig::new().with_base_url(String::new()),
    );
    assert_eq!(
        empty.connect_target(),
        Err(Error::UrlParse("relative URL without a base".to_string()))
    );
}

#[test]
fn connect_again_starts_a_new_attempt() {
    let (mut client, _) = client_with_handlers(Mode::Speed, 0);
    assert_eq!(client.connect(Ok(()), &Vec::new()), Err(Error::AuthenticationTimeout));
    client.ping("left over").unwrap();
    let arrivals = vec![InboundFrame::text("{\"event\":\"authenticated\"}".to_string())];
    assert_eq!(client.connect(Ok(()), &arrivals), Ok(()));
    assert_eq!(client.auth_state(), AuthenticationState::Authenticated);
    assert_eq!(client.queued(), 1);
    assert_eq!(client.missed_pongs(), 0);
}
