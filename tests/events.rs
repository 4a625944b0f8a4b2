use datrope::gateway::events::{Event, Opcode, SequenceNumber, Timestamp};
use datrope::gateway::payload::{EventPayload, GatewayError};

#[test]
fn test() {
    let json = r#"{"t":null,"s":null,"op":10,"d":{"heartbeat_interval":41250,"_trace":["[\"gateway-prd-us-east1-c-kz49\",{\"micros\":0.0}]"]}}"#;
    let actual_message = EventPayload::decode(json).expect("failed to deserialize");
    assert!(matches!(actual_message, EventPayload::Hello(_)));
}

#[test]
fn test_example_heartbeat_ack() {
    let json = r#"{"op": 11}"#;
    let event = EventPayload::decode(json).expect("failed to deserialize");
    assert!(matches!(event, EventPayload::HeartbeatAck));
}

#[test]
fn test_dispatch_without_sequence_number() {
    let json = r#"{"op": 0}"#;
    let error = EventPayload::decode(json)
        .expect_err("Deserializing should fail because of the missing sequence number");

    assert_eq!(".", error.path());
    assert_eq!(
        "No sequence number provided for a `Dispatch` event",
        error.message()
    );
}

#[test]
fn test_voice_state_update() {
    let json = r#"{
        "t": "VOICE_STATE_UPDATE",
        "s": 3,
        "op": 0,
        "d": {
            "member": {
                "user": {
                    "username": "foobar",
                    "public_flags": 0,
                    "id": "123456789012345678",
                    "global_name": null,
                    "display_name": null,
                    "discriminator": "0",
                    "clan": null,
                    "bot": false,
                    "avatar_decoration_data": {
                        "sku_id": "2345678901234567890",
                        "asset": "a_123456789012345678901234567890ab"
                    },
                    "avatar": "ab123456789012345678901234567890"
                },
                "roles": [],
                "premium_since": null,
                "pending": false,
                "nick": null,
                "mute": false,
                "joined_at": "2024-04-20T19:19:19.190000+00:00",
                "flags": 0,
                "deaf": false,
                "communication_disabled_until": null,
                "avatar": null
            },
            "user_id": "123456789012345678",
            "suppress": false,
            "session_id": "098765432109876543210987654321ab",
            "self_video": false,
            "self_mute": false,
            "self_deaf": false,
            "request_to_speak_timestamp": null,
            "mute": false,
            "guild_id": "2345678901234567890",
            "deaf": false,
            "channel_id": "3456789012345678901"
        }
    }"#;
    let _value = EventPayload::decode(json).expect("Deserializing should succeed");
}

#[test]
fn test_path() {
    let json = r#"{
        "t": "VOICE_STATE_UPDATE",
        "s": 3,
        "op": 0,
        "d": {
            "member": null,
            "user_id": "123456789012345678",
            "suppress": false,
            "session_id": "098765432109876543210987654321ab",
            "self_video": false,
            "self_mute": false,
            "self_deaf": false,
            "request_to_speak_timestamp": "definitely not a date",
            "mute": false,
            "guild_id": "2345678901234567890",
            "deaf": false,
            "channel_id": "3456789012345678901"
        }
    }"#;
    let error = EventPayload::decode(json).expect_err(
        "Deserializing should fail because of the bad `request_to_speak_timestamp` value",
    );

    // The actual error message doesn't matter that much,
    // it's just used to confirm the error is with the date field we're expecting.
    assert_eq!(
        "the 'year' component could not be parsed",
        error.message()
    );
    assert_eq!("d.request_to_speak_timestamp", error.path());
}

#[test]
fn hello_frame_decodes_to_its_interval() {
    let p = EventPayload::decode(r#"{"op":10,"d":{"heartbeat_interval":41250}}"#).unwrap();
    match p {
        EventPayload::Hello(h) => assert_eq!(41250, h.heartbeat_interval),
        other => panic!("unexpected {:?}", other),
    }
}

#[test]
fn heartbeat_ack_needs_no_data() {
    let p = EventPayload::decode(r#"{"op":11}"#).unwrap();
    assert!(matches!(p, EventPayload::HeartbeatAck));
}

#[test]
fn heartbeat_without_sequence() {
    let p = EventPayload::decode(r#"{"op":1,"s":null}"#).unwrap();
    assert!(matches!(p, EventPayload::Heartbeat(None)));
    let p = EventPayload::decode(r#"{"op":1}"#).unwrap();
    assert!(matches!(p, EventPayload::Heartbeat(None)));
}

#[test]
fn heartbeat_with_sequence() {
    let p = EventPayload::decode(r#"{"op":1,"s":3}"#).unwrap();
    assert!(matches!(p, EventPayload::Heartbeat(Some(SequenceNumber(3)))));
}

#[test]
fn dispatch_missing_sequence_with_payload() {
    let e = EventPayload::decode(r#"{"op":0,"t":"READY","d":{}}"#).unwrap_err();
    assert!(matches!(e, GatewayError::MissingSequenceNumber));
    let e = EventPayload::decode(r#"{"op":0,"s":null,"t":"X"}"#).unwrap_err();
    assert!(matches!(e, GatewayError::MissingSequenceNumber));
}

#[test]
fn unknown_opcodes_keep_their_code() {
    for code in [5i128, 12, 99, 18446744073709551615, -1, -9223372036854775808] {
        let text = format!(r#"{{"op":{}}}"#, code);
        match EventPayload::decode(&text).unwrap_err() {
            GatewayError::UnknownOpcode(c) => assert_eq!(code, c),
            other => panic!("unexpected {:?}", other),
        }
    }
}

#[test]
fn known_opcodes_without_data() {
    let cases = [
        (3, Opcode::PresenceUpdate),
        (4, Opcode::VoiceStateUpdate),
        (6, Opcode::Resume),
        (7, Opcode::Reconnect),
        (8, Opcode::RequestGuildMembers),
        (9, Opcode::InvalidSession),
    ];
    for (code, op) in cases {
        let p = EventPayload::decode(&format!(r#"{{"op":{}}}"#, code)).unwrap();
        assert_eq!(op, p.opcode());
        assert_eq!(code, op.code());
        assert_eq!(Some(op), Opcode::from_code(code));
    }
}

#[test]
fn malformed_opcode_and_sequence() {
    let e = EventPayload::decode(r#"{"op":"ten"}"#).unwrap_err();
    assert!(matches!(e, GatewayError::MalformedPayload { .. }));
    assert_eq!("op", e.path());
    let e = EventPayload::decode(r#"{"op":1.5}"#).unwrap_err();
    assert_eq!("op", e.path());
    let e = EventPayload::decode(r#"{"op":1,"s":"x"}"#).unwrap_err();
    assert_eq!("s", e.path());
    let e = EventPayload::decode(r#"{}"#).unwrap_err();
    assert_eq!("op", e.path());
}

#[test]
fn malformed_hello_reports_the_field() {
    let e = EventPayload::decode(r#"{"op":10,"d":{"heartbeat_interval":"soon"}}"#).unwrap_err();
    assert!(matches!(e, GatewayError::MalformedPayload { .. }));
    assert_eq!("d.heartbeat_interval", e.path());
    let e = EventPayload::decode(r#"{"op":10}"#).unwrap_err();
    assert_eq!("d", e.path());
}

#[test]
fn text_that_is_not_json() {
    let e = EventPayload::decode("not json").unwrap_err();
    assert!(matches!(e, GatewayError::MalformedPayload { .. }));
    assert_eq!(".", e.path());
    assert!(!e.message().is_empty());
    let e = EventPayload::decode("[1, 2]").unwrap_err();
    assert_eq!(".", e.path());
}

#[test]
fn unknown_event_is_kept_as_it_came() {
    let p = EventPayload::decode(r#"{"op":0,"s":7,"t":"SOMETHING_NEW","d":{"a":[1,true,null]}}"#).unwrap();
    match p {
        EventPayload::Dispatch(s, Event::Other(name, data)) => {
            assert_eq!(7, s.0);
            assert_eq!("SOMETHING_NEW", name);
            assert_eq!(r#"{"a":[1,true,null]}"#, datrope::json::render_text(&data.0));
        }
        other => panic!("unexpected {:?}", other),
    }
}

#[test]
fn nested_paths_are_reported_in_full() {
    let e = EventPayload::decode(r#"{"op":2,"d":{"token":"t","properties":{"os":"a","browser":"b","device":1},"presence":{"activities":[],"status":"online"},"intents":0}}"#).unwrap_err();
    assert_eq!("d.properties.device", e.path());
    let e = EventPayload::decode(r#"{"op":2,"d":{"token":"t","properties":{"os":"a","browser":"b","device":"c"},"presence":{"activities":[{"name":"x","type":0,"created_at":1},{"name":"y","type":"z","created_at":1}],"status":"online"},"intents":0}}"#).unwrap_err();
    assert_eq!("d.presence.activities.1.type", e.path());
    let e = EventPayload::decode(r#"{"op":0,"s":1,"t":"READY","d":{"v":10,"user":{},"guilds":[],"session_id":"a","resume_gateway_url":"b","application":{"id":"42","flags":"x"}}}"#).unwrap_err();
    assert_eq!("d.application.flags", e.path());
}

#[test]
fn dispatch_needs_an_event_name() {
    let e = EventPayload::decode(r#"{"op":0,"s":1,"d":{}}"#).unwrap_err();
    assert_eq!("t", e.path());
}

#[test]
fn ready_event_is_read() {
    let text = r#"{"op":0,"s":1,"t":"READY","d":{"v":10,"user":{"id":"1"},"guilds":[],"session_id":"abc","resume_gateway_url":"wss://resume.example","shard":[0,1],"application":{"id":"42","flags":4160}}}"#;
    match EventPayload::decode(text).unwrap() {
        EventPayload::Dispatch(s, Event::Ready(r)) => {
            assert_eq!(1, s.0);
            assert_eq!(10, r.v);
            assert_eq!("abc", r.session_id);
            assert_eq!("wss://resume.example", r.resume_gateway_url);
            assert_eq!(Some((0, 1)), r.shard);
            assert_eq!("42", r.application.id);
            assert_eq!(4160, r.application.flags.bits());
        }
        other => panic!("unexpected {:?}", other),
    }
}

#[test]
fn ready_event_missing_session_id() {
    let text = r#"{"op":0,"s":1,"t":"READY","d":{"v":10,"user":{},"guilds":[],"resume_gateway_url":"x","application":{"id":"42","flags":0}}}"#;
    let e = EventPayload::decode(text).unwrap_err();
    assert_eq!("d.session_id", e.path());
}

#[test]
fn dispatch_round_trip_keeps_op_sequence_and_name() {
    let texts = [
        r#"{"op":0,"s":1,"t":"READY","d":{"v":10,"user":{"id":"1"},"guilds":[{"id":"2","unavailable":true}],"session_id":"abc","resume_gateway_url":"wss://r","application":{"id":"42","flags":64}}}"#,
        r#"{"op":0,"s":9,"t":"MESSAGE_CREATE","d":{"content":"hi \"there\"","n":[1.5,-2]}}"#,
        r#"{"op":0,"s":4,"t":"TYPING_START"}"#,
    ];
    for text in texts {
        let first = EventPayload::decode(text).unwrap();
        let again = datrope::json::render_text(&first.envelope());
        let third_text =
            datrope::json::render_text(&EventPayload::decode(&again).unwrap().envelope());
        assert_eq!(again, third_text);
        let second = EventPayload::decode(&again).unwrap();
        let (a, b) = (EventPayload::decode(text).unwrap(), second);
        match (a, b) {
            (EventPayload::Dispatch(s1, e1), EventPayload::Dispatch(s2, e2)) => {
                assert_eq!(s1, s2);
                let (n1, d1) = e1.into_json();
                let (n2, d2) = e2.into_json();
                assert_eq!(n1, n2);
                assert_eq!(datrope::json::render_text(&d1), datrope::json::render_text(&d2));
            }
            _ => panic!("not a dispatch"),
        }
    }
}

#[test]
fn timestamp_reads_iso8601() {
    let t = Timestamp::parse("2024-04-20T19:19:19.190000+00:00".to_string()).unwrap();
    assert_eq!(1713640759190000000, t.unix_nanos());
    assert_eq!(0, t.offset_seconds());
    assert_eq!("2024-04-20T19:19:19.190000+00:00", t.text());
    let t = Timestamp::parse("2024-04-20T21:19:19+02:00".to_string()).unwrap();
    assert_eq!(1713640759000000000, t.unix_nanos());
    assert_eq!(7200, t.offset_seconds());
    assert!(Timestamp::parse("yesterday".to_string()).is_err());
}

#[test]
fn voice_state_timestamp_is_kept() {
    let text = r#"{"op":0,"s":2,"t":"VOICE_STATE_UPDATE","d":{"user_id":"1","session_id":"s","deaf":false,"mute":true,"self_deaf":false,"self_mute":false,"self_video":false,"suppress":false,"request_to_speak_timestamp":"2024-04-20T21:19:19+02:00"}}"#;
    match EventPayload::decode(text).unwrap() {
        EventPayload::Dispatch(_, Event::VoiceStateUpdate(v)) => {
            assert!(v.mute);
            assert_eq!(None, v.guild_id);
            assert!(v.member.is_none());
            let t = v.request_to_speak_timestamp.unwrap();
            assert_eq!(1713640759000000000, t.unix_nanos());
        }
        other => panic!("unexpected {:?}", other),
    }
}
