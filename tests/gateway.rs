use descord::args::coerce_args;
use descord::gateway::{ConnState, Connection, GatewayAction, GatewayEvent};
use descord::payload::Payload;
use descord::payloads::{heartbeat, identify, resume};
use descord::router::{route, CommandSpec, Registry, Route};

fn frame(text: &str) -> GatewayEvent {
    GatewayEvent::Frame(Payload::parse(text).unwrap())
}

const READY: &str = r#"{"op":0,"s":1,"t":"READY","d":{"session_id":"abc","resume_gateway_url":"wss://resume.example","user":{"id":"99","username":"bot"}}}"#;

fn live() -> Connection {
    let mut c = Connection::new("tok", 513);
    c.handle(GatewayEvent::Opened);
    c.handle(frame(r#"{"op":10,"d":{"heartbeat_interval":40000}}"#));
    c.handle(frame(READY));
    c
}

#[test]
fn handshake_then_command() {
    let mut c = Connection::new("tok", 513);
    assert!(c.handle(GatewayEvent::Opened).is_empty());
    assert_eq!(c.state, ConnState::AwaitingHello);
    let acts = c.handle(frame(r#"{"op":10,"d":{"heartbeat_interval":40000}}"#));
    assert_eq!(acts.len(), 2);
    assert!(matches!(acts[0], GatewayAction::StartHeartbeat(40000)));
    assert!(matches!(&acts[1], GatewayAction::Send(s) if *s == identify("tok", 513)));
    let acts = c.handle(frame(READY));
    assert_eq!(c.state, ConnState::Live);
    assert_eq!(c.sequence, 1);
    assert_eq!(c.session_id.as_deref(), Some("abc"));
    assert_eq!(c.resume_url.as_deref(), Some("wss://resume.example"));
    assert_eq!(c.bot_id.as_deref(), Some("99"));
    assert!(matches!(&acts[0], GatewayAction::Dispatch { tag, .. } if tag == "READY"));

    let acts = c.handle(frame(r#"{"op":0,"s":2,"t":"MESSAGE_CREATE","d":{"id":"m1","channel_id":"c1","content":"!ping"}}"#));
    assert_eq!(c.sequence, 2);
    let (tag, body) = match &acts[0] {
        GatewayAction::Dispatch { tag, body } => (tag.clone(), body.clone()),
        _ => panic!("expected a dispatch"),
    };
    let reg = Registry {
        events: vec![],
        commands: vec![CommandSpec { name: "!ping".to_string(), params: vec![], optional: vec![], permissions: 0 }],
        slash_commands: vec![],
        components: vec![],
    };
    match route(&reg, &tag, &body) {
        Route::Command { index, tokens, channel_id, message_id } => {
            assert_eq!(index, 0);
            assert_eq!(channel_id, "c1");
            assert_eq!(message_id, "m1");
            let args = coerce_args(&reg.commands[0].name, &tokens, 1, &vec![], &vec![]).unwrap();
            assert!(args.is_empty());
        }
        _ => panic!("expected a command"),
    }
}

#[test]
fn first_frame_other_than_hello_reconnects() {
    let mut c = Connection::new("tok", 1);
    c.handle(GatewayEvent::Opened);
    let acts = c.handle(frame(r#"{"op":11}"#));
    assert_eq!(c.state, ConnState::Reconnecting);
    assert!(matches!(&acts[0], GatewayAction::Reconnect { resume: false, delay_secs: 1, .. }));
}

#[test]
fn invalid_session_starts_fresh() {
    let mut c = live();
    let acts = c.handle(frame(r#"{"op":9,"d":false}"#));
    assert_eq!(c.session_id, None);
    assert_eq!(c.resume_url, None);
    assert!(matches!(&acts[0], GatewayAction::Reconnect { url, resume: false, .. } if url == "wss://gateway.discord.gg/?v=10&encoding=json"));
    assert!(c.handle(GatewayEvent::Opened).is_empty());
    assert_eq!(c.state, ConnState::AwaitingHello);
}

#[test]
fn reconnect_request_resumes() {
    let mut c = live();
    let acts = c.handle(frame(r#"{"op":7,"d":null}"#));
    assert_eq!(c.session_id.as_deref(), Some("abc"));
    assert!(matches!(&acts[0], GatewayAction::Reconnect { url, resume: true, delay_secs: 1 } if url == "wss://resume.example"));
    let acts = c.handle(GatewayEvent::Opened);
    assert_eq!(c.state, ConnState::Resuming);
    assert!(matches!(&acts[0], GatewayAction::Send(s) if *s == resume("tok", "abc", 1)));
    c.handle(frame(r#"{"op":0,"s":5,"t":"RESUMED","d":{}}"#));
    assert_eq!(c.state, ConnState::Live);
    assert_eq!(c.failures, 0);
    assert_eq!(c.backoff_secs(), 0);
}

#[test]
fn socket_close_resumes() {
    let mut c = live();
    let acts = c.handle(GatewayEvent::Closed);
    assert!(matches!(&acts[0], GatewayAction::Reconnect { resume: true, .. }));
    assert_eq!(c.resume_url.as_deref(), Some("wss://resume.example"));
    let acts = c.handle(GatewayEvent::Opened);
    assert!(matches!(&acts[0], GatewayAction::Send(s) if *s == resume("tok", "abc", 1)));
}

#[test]
fn backoff_grows_per_failure() {
    let mut c = live();
    c.handle(GatewayEvent::Closed);
    c.handle(GatewayEvent::Opened);
    c.handle(GatewayEvent::Closed);
    assert_eq!(c.backoff_secs(), 2);
}

#[test]
fn heartbeat_needs_acknowledgement() {
    let mut c = live();
    let acts = c.handle(GatewayEvent::HeartbeatDue);
    assert!(matches!(&acts[0], GatewayAction::Send(s) if *s == heartbeat(1)));
    c.handle(frame(r#"{"op":11}"#));
    let acts = c.handle(GatewayEvent::HeartbeatDue);
    assert!(matches!(&acts[0], GatewayAction::Send(_)));
    let acts = c.handle(GatewayEvent::HeartbeatDue);
    assert!(matches!(&acts[0], GatewayAction::Reconnect { resume: true, .. }));
}

#[test]
fn shutdown_terminates() {
    let mut c = live();
    let acts = c.handle(GatewayEvent::Shutdown);
    assert!(matches!(acts[0], GatewayAction::Close));
    assert_eq!(c.state, ConnState::Terminated);
    assert!(c.handle(GatewayEvent::Closed).is_empty());
}

#[test]
fn failed_connects_back_off_further() {
    let mut c = Connection::new("tok", 1);
    let acts = c.handle(GatewayEvent::Closed);
    assert!(matches!(&acts[0], GatewayAction::Reconnect { resume: false, delay_secs: 1, .. }));
    let acts = c.handle(GatewayEvent::Closed);
    assert!(matches!(&acts[0], GatewayAction::Reconnect { delay_secs: 2, .. }));
    assert_eq!(c.backoff_secs(), 2);
    c.handle(GatewayEvent::Opened);
    c.handle(frame(r#"{"op":10,"d":{"heartbeat_interval":40000}}"#));
    c.handle(frame(READY));
    assert_eq!(c.backoff_secs(), 0);
}
