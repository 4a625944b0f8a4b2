use datrope::flags::{GatewayIntent, GatewayIntents};
use datrope::gateway::events::{Event, Hello, SequenceNumber, Unimplemented};
use datrope::gateway::payload::{EventPayload, GatewayError};
use datrope::gateway::session::{default_identify, HandshakeState, Session};
use datrope::json::JsonValue;

fn fresh() -> Session {
    let intents = GatewayIntents::from_flags(&vec![GatewayIntent::Guilds, GatewayIntent::GuildMessages]);
    Session::new(default_identify("SECRET-REDACTED".to_string(), intents))
}

fn dispatch(n: u64) -> EventPayload {
    EventPayload::Dispatch(
        SequenceNumber(n),
        Event::Other("MESSAGE_CREATE".to_string(), Unimplemented(JsonValue::Null)),
    )
}

#[test]
fn handshake_sends_heartbeat_then_one_identify() {
    let mut s = fresh();
    assert_eq!(HandshakeState::AwaitingHello, s.state());
    let step = s.handle(EventPayload::Hello(Hello { heartbeat_interval: 41250 })).unwrap();
    assert_eq!(Some(41250), step.heartbeat_interval);
    assert_eq!(1, step.outbound.len());
    assert!(matches!(step.outbound[0], EventPayload::Heartbeat(None)));
    assert_eq!(HandshakeState::AwaitingFirstHeartbeatAck, s.state());
    assert!(s.has_credentials());

    let step = s.handle(EventPayload::HeartbeatAck).unwrap();
    assert_eq!(1, step.outbound.len());
    match &step.outbound[0] {
        EventPayload::Identify(i) => {
            assert_eq!("SECRET-REDACTED", i.token);
            assert_eq!((1 << 0) | (1 << 9), i.intents.bits());
        }
        other => panic!("unexpected {:?}", other),
    }
    assert_eq!(HandshakeState::Identified, s.state());
    assert!(!s.has_credentials());
    assert_eq!(Some(41250), s.heartbeat_interval());
}

#[test]
fn handshake_from_frames() {
    let mut s = fresh();
    let step = s.handle_frame(r#"{"op":10,"d":{"heartbeat_interval":41250}}"#).unwrap();
    assert!(matches!(step.outbound[0], EventPayload::Heartbeat(None)));
    let step = s.handle_frame(r#"{"op":11}"#).unwrap();
    assert!(matches!(step.outbound[0], EventPayload::Identify(_)));
}

#[test]
fn second_ack_sends_nothing() {
    let mut s = fresh();
    s.handle(EventPayload::Hello(Hello { heartbeat_interval: 10 })).unwrap();
    s.handle(EventPayload::HeartbeatAck).unwrap();
    let step = s.handle(EventPayload::HeartbeatAck).expect("no reused credentials");
    assert!(step.outbound.is_empty());
    assert!(!step.reconnect);
    assert_eq!(HandshakeState::Identified, s.state());
    assert!(!s.awaiting_ack());
}

#[test]
fn ack_before_hello_is_ignored() {
    let mut s = fresh();
    let step = s.handle(EventPayload::HeartbeatAck).unwrap();
    assert!(step.outbound.is_empty());
    assert_eq!(HandshakeState::AwaitingHello, s.state());
    assert!(s.has_credentials());
}

#[test]
fn heartbeat_request_echoes_latest_dispatch() {
    let mut s = fresh();
    s.handle(EventPayload::Hello(Hello { heartbeat_interval: 10 })).unwrap();
    s.handle(EventPayload::HeartbeatAck).unwrap();
    let step = s.handle(dispatch(1)).unwrap();
    assert!(step.outbound.is_empty());
    assert!(matches!(step.event, Some(Event::Other(_, _))));
    let step = s.handle(EventPayload::Heartbeat(None)).unwrap();
    assert!(matches!(step.outbound[0], EventPayload::Heartbeat(Some(SequenceNumber(1)))));
    s.handle(dispatch(2)).unwrap();
    assert_eq!(Some(SequenceNumber(2)), s.sequence());
    let step = s.handle(EventPayload::Heartbeat(None)).unwrap();
    assert!(matches!(step.outbound[0], EventPayload::Heartbeat(Some(SequenceNumber(2)))));
    assert!(matches!(s.heartbeat(), EventPayload::Heartbeat(Some(SequenceNumber(2)))));
    assert!(s.awaiting_ack());
}

#[test]
fn bad_frame_leaves_sequence_alone() {
    let mut s = fresh();
    s.handle(dispatch(5)).unwrap();
    let e = s.handle_frame(r#"{"op":0,"t":"MESSAGE_CREATE","d":{}}"#).unwrap_err();
    assert!(matches!(e, GatewayError::MissingSequenceNumber));
    assert_eq!(Some(SequenceNumber(5)), s.sequence());
    let e = s.handle_frame(r#"{"op":5}"#).unwrap_err();
    assert!(matches!(e, GatewayError::UnknownOpcode(5)));
    assert_eq!(Some(SequenceNumber(5)), s.sequence());
}

#[test]
fn reconnect_and_invalid_session_end_the_session() {
    let mut s = fresh();
    assert!(s.handle(EventPayload::Reconnect).unwrap().reconnect);
    assert!(s.handle(EventPayload::InvalidSession).unwrap().reconnect);
}

#[test]
fn heartbeat_encodes_its_sequence() {
    let text = EventPayload::Heartbeat(Some(SequenceNumber(251))).encode_text().unwrap();
    assert_eq!(r#"{"op":1,"d":251}"#, text);
    let text = EventPayload::Heartbeat(None).encode_text().unwrap();
    assert_eq!(r#"{"op":1,"d":null}"#, text);
}

#[test]
fn identify_encodes_without_shard() {
    let intents = GatewayIntents::from_flags(&vec![GatewayIntent::Guilds, GatewayIntent::MessageContent]);
    let mut i = default_identify("to\"ken".to_string(), intents);
    i.shard = Some((0, 2));
    let text = EventPayload::Identify(i).encode_text().unwrap();
    assert_eq!(
        r#"{"op":2,"d":{"token":"to\"ken","properties":{"os":"0b0","browser":"0b1","device":"0b10"},"compress":null,"large_threshold":null,"presence":{"since":null,"activities":[],"status":"online","afk":false},"intents":32769}}"#,
        text
    );
    match EventPayload::decode(&text).unwrap() {
        EventPayload::Identify(back) => {
            assert_eq!("to\"ken", back.token);
            assert_eq!(None, back.shard);
            assert_eq!(32769, back.intents.bits());
        }
        other => panic!("unexpected {:?}", other),
    }
}

#[test]
fn decoded_identify_is_written_back_the_same() {
    let text = r#"{"op":2,"d":{"token":"tok","properties":{"os":"0b0","browser":"0b1","device":"0b10"},"compress":null,"large_threshold":null,"presence":{"since":null,"activities":[],"status":"online","afk":false},"intents":3}}"#;
    let again = EventPayload::decode(text).unwrap().encode_text().unwrap();
    assert_eq!(text, again);
    let intents = GatewayIntents::from_flags(&vec![GatewayIntent::Guilds, GatewayIntent::GuildMembers]);
    let mut i = default_identify("tok".to_string(), intents);
    i.shard = Some((0, 1));
    assert_eq!(text, EventPayload::Identify(i).encode_text().unwrap());
}

#[test]
fn other_operations_have_only_their_code() {
    let w = EventPayload::Resume.envelope();
    assert_eq!(r#"{"op":6}"#, datrope::json::render_text(&w));
    let w = EventPayload::Hello(Hello { heartbeat_interval: 5 }).envelope();
    assert_eq!(r#"{"op":10,"d":{"heartbeat_interval":5}}"#, datrope::json::render_text(&w));
}

#[test]
fn server_only_and_unimplemented_operations_are_refused() {
    assert!(matches!(EventPayload::HeartbeatAck.encode(), Err(GatewayError::ServerOnlyOperation(_))));
    assert!(matches!(
        EventPayload::Hello(Hello { heartbeat_interval: 1 }).encode(),
        Err(GatewayError::ServerOnlyOperation(_))
    ));
    assert!(matches!(dispatch(1).encode(), Err(GatewayError::ServerOnlyOperation(_))));
    assert!(matches!(EventPayload::Resume.encode(), Err(GatewayError::UnimplementedOperation(_))));
    assert!(matches!(
        EventPayload::RequestGuildMembers.encode_text(),
        Err(GatewayError::UnimplementedOperation(_))
    ));
}
