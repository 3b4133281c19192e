use ws2mongo::config::Config;
use ws2mongo::frame::Frame;
use ws2mongo::websocket::{
    fresh_key, ConnState, Handshake, RunAction, RunEvent, WebSocketClient, WsError,
    RETRY_DELAY_SECS,
};

fn test_config(url: &str) -> Config {
    Config {
        websocket_url: String::from(url),
        websocket_api_key: None,
        websocket_api_secret: None,
        mongodb_uri: "".to_string(),
        database_name: "".to_string(),
        collection_name: "".to_string(),
        mongodb_user: None,
        mongodb_password: None,
        mongodb_auth_source: None,
        mongodb_auth_mechanism: None,
    }
}

#[test]
fn test_send_message_success() {
    let config = test_config("ws://example.com");
    let mut client = WebSocketClient::new(config, vec![]);
    client.state = ConnState::Open;

    let result = client.send_message(Frame::Text("Hello WebSocket".to_string()));
    assert!(result.is_ok());
}

#[test]
fn test_receive_message_success() {
    let config = test_config("ws://example.com");
    let mut client = WebSocketClient::new(config, vec![]);
    client.state = ConnState::Open;

    let inbound = Some(Ok(Frame::Text("Hello from WebSocket".to_string())));
    let result = client.receive_message(inbound);
    assert!(result.is_ok());
    assert_eq!(result.unwrap(), Frame::Text("Hello from WebSocket".to_string()));
}

#[test]
fn send_and_receive_require_an_open_connection() {
    let config = test_config("ws://example.com");
    let client = WebSocketClient::new(config, vec![]);

    let sent = client.send_message(Frame::Text("early".to_string()));
    assert_eq!(sent, Err(WsError::ConnectionNotEstablished));

    let received = client.receive_message(Some(Ok(Frame::Text("early".to_string()))));
    assert_eq!(received, Err(WsError::ConnectionNotEstablished));
    assert_eq!(
        WsError::ConnectionNotEstablished.message(),
        "WebSocket connection not established"
    );
}

#[test]
fn receive_reports_stream_end_and_transport_errors() {
    let config = test_config("ws://example.com");
    let mut client = WebSocketClient::new(config, vec![]);
    client.state = ConnState::Open;

    assert_eq!(client.receive_message(None), Err(WsError::NoMessage));
    assert_eq!(WsError::NoMessage.message(), "No message received");

    let r = client.receive_message(Some(Err("connection reset".to_string())));
    assert_eq!(r, Err(WsError::Transport("connection reset".to_string())));
}

#[test]
fn connect_builds_the_upgrade_request() {
    let mut config = test_config("ws://example.com");
    config.websocket_api_key = Some("key123".to_string());
    config.websocket_api_secret = Some("secret123".to_string());
    let mut client = WebSocketClient::new(config, vec![]);

    let h: Handshake = client.connect("FIXEDKEYFIXEDKEYFIXEDKEY").unwrap();
    assert_eq!(client.state, ConnState::Connecting);
    assert!(!h.use_tls);
    assert_eq!(h.uri, "ws://example.com/");
    let expected: Vec<(String, String)> = vec![
        ("Sec-WebSocket-Key".to_string(), "FIXEDKEYFIXEDKEYFIXEDKEY".to_string()),
        ("Sec-WebSocket-Version".to_string(), "13".to_string()),
        ("host".to_string(), "example.com".to_string()),
        ("Connection".to_string(), "Upgrade".to_string()),
        ("Upgrade".to_string(), "websocket".to_string()),
        ("APCA-API-KEY-ID".to_string(), "key123".to_string()),
        ("APCA-API-SECRET-KEY".to_string(), "secret123".to_string()),
    ];
    assert_eq!(h.headers, expected);
}

#[test]
fn encrypted_scheme_selects_tls() {
    let config = test_config("wss://stream.example.com/v2");
    let mut client = WebSocketClient::new(config, vec![]);
    let h = client.connect(fresh_key().as_str()).unwrap();
    assert!(h.use_tls);
    assert_eq!(h.uri, "wss://stream.example.com/v2");
    // without configured credentials only the five protocol headers are sent
    assert_eq!(h.headers.len(), 5);
}

#[test]
fn invalid_endpoint_fails_the_attempt() {
    let config = test_config("not a url");
    let mut client = WebSocketClient::new(config, vec![]);
    assert_eq!(client.connect("k"), Err(WsError::InvalidEndpoint));
    assert_eq!(client.state, ConnState::Errored);

    // parses as a URL but carries no host
    let config = test_config("unix:/run/sock");
    let mut client = WebSocketClient::new(config, vec![]);
    assert_eq!(client.connect("k"), Err(WsError::InvalidEndpoint));
}

#[test]
fn fresh_keys_are_handshake_sized() {
    let k1 = fresh_key();
    let k2 = fresh_key();
    assert_eq!(k1.len(), 24);
    assert_eq!(k2.len(), 24);
}

#[test]
fn transport_failure_reconnect_replays_initial_messages_in_order() {
    let first = Frame::Text("{\"type\":\"subscribe\",\"symbol\":\"BTCUSD\"}".to_string());
    let second = Frame::Text("{\"type\":\"subscribe\",\"symbol\":\"ETHUSD\"}".to_string());
    let config = test_config("ws://example.com");
    let mut client = WebSocketClient::new(config, vec![first.clone(), second.clone()]);

    // reach the open state through a first connect
    client.connect(fresh_key().as_str()).unwrap();
    assert_eq!(client.run_step(RunEvent::ConnectSucceeded), RunAction::AwaitFrame);
    assert_eq!(client.state, ConnState::Open);

    // a simulated transport failure leaves Open
    let action = client.run_step(RunEvent::ReadFailed("simulated failure".to_string()));
    assert_ne!(client.state, ConnState::Open);
    assert_eq!(client.state, ConnState::Errored);
    assert_eq!(action, RunAction::AttemptConnect);

    // the next successful connect replays both messages, in the original order
    let h = client.connect(fresh_key().as_str()).unwrap();
    assert_eq!(h.replay, vec![first, second]);
    assert_eq!(client.run_step(RunEvent::ConnectSucceeded), RunAction::AwaitFrame);
    assert_eq!(client.state, ConnState::Open);
}

#[test]
fn failed_connect_sleeps_the_fixed_delay_and_retries() {
    let config = test_config("ws://example.com");
    let mut client = WebSocketClient::new(config, vec![]);
    client.connect(fresh_key().as_str()).unwrap();
    let action = client.run_step(RunEvent::ConnectFailed("refused".to_string()));
    assert_eq!(action, RunAction::SleepThenRetry);
    assert_eq!(client.state, ConnState::Errored);
    assert_eq!(RETRY_DELAY_SECS, 5);
    // the loop then attempts to connect again, unconditionally
    assert_eq!(client.next_action(), RunAction::AttemptConnect);
}

#[test]
fn handler_errors_do_not_interrupt_the_loop() {
    let config = test_config("ws://example.com");
    let mut client = WebSocketClient::new(config, vec![]);
    client.connect(fresh_key().as_str()).unwrap();
    client.run_step(RunEvent::ConnectSucceeded);

    let frame = Frame::Text("{}".to_string());
    let action = client.run_step(RunEvent::FrameArrived(frame.clone()));
    assert_eq!(action, RunAction::DeliverFrame(frame));
    let action = client.run_step(RunEvent::HandlerFailed("handler refused".to_string()));
    assert_eq!(action, RunAction::AwaitFrame);
    assert_eq!(client.state, ConnState::Open);
}
