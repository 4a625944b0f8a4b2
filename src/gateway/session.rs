//! The session controller: the state machine that answers the gateway's
//! messages, owns the handshake progress and the last sequence number, and
//! sends the identification exactly once.

use vstd::prelude::*;
use crate::flags::GatewayIntents;
use crate::gateway::events::{
    Activity, ConnectionProperties, Event, Hello, Identify, PresenceUpdate, SequenceNumber, Status,
};
use crate::gateway::payload::{EventPayload, GatewayError};
use crate::json::json_of_text;

verus! {

/// How far the handshake of a connection has come.
#[derive(Clone, Copy, Debug, PartialEq, Eq, Structural)]
pub enum HandshakeState {
    AwaitingHello,
    AwaitingFirstHeartbeatAck,
    Identified,
}

/// What the caller is to do after a message was handled.
#[derive(Debug)]
pub struct Step {
    /// Operations to send, in this order.
    pub outbound: Vec<EventPayload>,
    /// An event to hand to the application.
    pub event: Option<Event>,
    /// Where the gateway said hello: the heartbeat period to keep, in milliseconds.
    pub heartbeat_interval: Option<u64>,
    /// The gateway asked the client to reconnect; the session ends.
    pub reconnect: bool,
}

/// The state of one connection.
#[derive(Debug)]
pub struct Session {
    state: HandshakeState,
    sequence: Option<SequenceNumber>,
    credentials: Option<Identify>,
    heartbeat_interval: Option<u64>,
    awaiting_ack: bool,
}

impl Session {
    /// The credentials are held exactly until the identification is sent.
    pub closed spec fn wf(self) -> bool {
        (self.state == HandshakeState::Identified) == (self.credentials is None)
    }

    pub closed spec fn spec_state(self) -> HandshakeState {
        self.state
    }

    pub closed spec fn spec_sequence(self) -> Option<SequenceNumber> {
        self.sequence
    }

    pub closed spec fn spec_credentials(self) -> Option<Identify> {
        self.credentials
    }

    pub closed spec fn spec_interval(self) -> Option<u64> {
        self.heartbeat_interval
    }

    pub closed spec fn spec_awaiting_ack(self) -> bool {
        self.awaiting_ack
    }

    /// A session that waits for the gateway's hello and will identify with
    /// `credentials`.
    pub fn new(credentials: Identify) -> (r: Session)
        ensures
            r.spec_state() == HandshakeState::AwaitingHello,
            r.spec_sequence() is None,
            r.spec_credentials() == Some(credentials),
            r.spec_interval() is None,
            !r.spec_awaiting_ack(),
            r.wf(),
    {
        Session {
            state: HandshakeState::AwaitingHello,
            sequence: None,
            credentials: Some(credentials),
            heartbeat_interval: None,
            awaiting_ack: false,
        }
    }
}


/// The identification a client sends: the token and intents it was given,
/// fixed connection properties, and an online presence with no activity.
pub fn default_identify(token: String, intents: GatewayIntents) -> (r: Identify)
    ensures
        r.token == token,
        r.intents == intents,
        r.shard is None,
        r.compress is None,
        r.large_threshold is None,
        r.properties.os@ == "0b0"@,
        r.properties.browser@ == "0b1"@,
        r.properties.device@ == "0b10"@,
        r.presence.since is None,
        r.presence.status == Status::Online,
        r.presence.activities@.len() == 0,
        r.presence.afk == Some(false),
{
    Identify {
        token,
        properties: ConnectionProperties {
            os: "0b0".to_owned(),
            browser: "0b1".to_owned(),
            device: "0b10".to_owned(),
        },
        compress: None,
        large_threshold: None,
        shard: None,
        presence: PresenceUpdate {
            since: None,
            activities: Vec::<Activity>::new(),
            status: Status::Online,
            afk: Some(false),
        },
        intents,
    }
}

impl Step {
    pub open spec fn only_sends(self, ops: Seq<EventPayload>) -> bool {
        &&& self.outbound@ == ops
        &&& self.event is None
        &&& self.heartbeat_interval is None
        &&& !self.reconnect
    }

    fn sending(ops: Vec<EventPayload>) -> (r: Step)
        ensures
            r.only_sends(ops@),
    {
        Step { outbound: ops, event: None, heartbeat_interval: None, reconnect: false }
    }
}

impl Session {
    /// Only the handshake progress and the waiting flag may differ.
    pub open spec fn keeps_data(s: Session, t: Session) -> bool {
        &&& t.spec_sequence() == s.spec_sequence()
        &&& t.spec_credentials() == s.spec_credentials()
        &&& t.spec_interval() == s.spec_interval()
    }

    /// What handling the message `p` does: from state `s` to state `t`, with
    /// the step (or error) `r`.
    pub open spec fn transition(s: Session, p: EventPayload, t: Session, r: Result<Step, GatewayError>) -> bool {
        &&& t.wf()
        &&& (t.spec_state() == HandshakeState::Identified) == (t.spec_credentials() is None)
        &&& r is Ok
        &&& match p {
            EventPayload::Hello(h) => {
                &&& t.spec_state() == if s.spec_state() == HandshakeState::AwaitingHello {
                    HandshakeState::AwaitingFirstHeartbeatAck
                } else {
                    s.spec_state()
                }
                &&& t.spec_sequence() == s.spec_sequence()
                &&& t.spec_credentials() == s.spec_credentials()
                &&& t.spec_interval() == Some(h.heartbeat_interval)
                &&& t.spec_awaiting_ack()
                &&& r->Ok_0.outbound@ == seq![
                    EventPayload::Heartbeat(
                        if s.spec_state() == HandshakeState::AwaitingHello {
                            None
                        } else {
                            s.spec_sequence()
                        },
                    ),
                ]
                &&& r->Ok_0.event is None
                &&& r->Ok_0.heartbeat_interval == Some(h.heartbeat_interval)
                &&& !r->Ok_0.reconnect
            },
            EventPayload::HeartbeatAck => {
                &&& !t.spec_awaiting_ack()
                &&& t.spec_sequence() == s.spec_sequence()
                &&& t.spec_interval() == s.spec_interval()
                &&& if s.spec_state() == HandshakeState::AwaitingFirstHeartbeatAck {
                    &&& t.spec_state() == HandshakeState::Identified
                    &&& r->Ok_0.only_sends(seq![EventPayload::Identify(s.spec_credentials()->0)])
                } else {
                    &&& t.spec_state() == s.spec_state()
                    &&& t.spec_credentials() == s.spec_credentials()
                    &&& r->Ok_0.only_sends(Seq::empty())
                }
            },
            EventPayload::Dispatch(n, e) => {
                &&& t.spec_state() == s.spec_state()
                &&& t.spec_sequence() == Some(n)
                &&& t.spec_credentials() == s.spec_credentials()
                &&& t.spec_interval() == s.spec_interval()
                &&& t.spec_awaiting_ack() == s.spec_awaiting_ack()
                &&& r->Ok_0.outbound@.len() == 0
                &&& r->Ok_0.event == Some(e)
                &&& r->Ok_0.heartbeat_interval is None
                &&& !r->Ok_0.reconnect
            },
            EventPayload::Heartbeat(_) => {
                &&& t == s
                &&& r->Ok_0.only_sends(seq![EventPayload::Heartbeat(s.spec_sequence())])
            },
            EventPayload::Reconnect | EventPayload::InvalidSession => {
                &&& t == s
                &&& r->Ok_0.outbound@.len() == 0
                &&& r->Ok_0.event is None
                &&& r->Ok_0.heartbeat_interval is None
                &&& r->Ok_0.reconnect
            },
            _ => {
                &&& t == s
                &&& r->Ok_0.only_sends(Seq::empty())
            },
        }
    }

    /// Handles one message of the gateway.
    pub fn handle(&mut self, payload: EventPayload) -> (r: Result<Step, GatewayError>)
        requires
            old(self).wf(),
        ensures
            Session::transition(*old(self), payload, *final(self), r),
    {
        match payload {
            EventPayload::Hello(h) => {
                let probe = if self.state == HandshakeState::AwaitingHello {
                    self.state = HandshakeState::AwaitingFirstHeartbeatAck;
                    EventPayload::Heartbeat(None)
                } else {
                    EventPayload::Heartbeat(self.sequence)
                };
                self.heartbeat_interval = Some(h.heartbeat_interval);
                self.awaiting_ack = true;
                let mut ops: Vec<EventPayload> = Vec::new();
                ops.push(probe);
                assert(ops@ =~= seq![probe]);
                Ok(Step { outbound: ops, event: None, heartbeat_interval: Some(h.heartbeat_interval), reconnect: false })
            },
            EventPayload::HeartbeatAck => {
                self.awaiting_ack = false;
                let mut ops: Vec<EventPayload> = Vec::new();
                if self.state == HandshakeState::AwaitingFirstHeartbeatAck {
                    let credentials = match self.credentials.take() {
                        Some(c) => c,
                        None => return Err(GatewayError::ReusedCredentials),
                    };
                    self.state = HandshakeState::Identified;
                    ops.push(EventPayload::Identify(credentials));
                    assert(ops@ =~= seq![EventPayload::Identify(credentials)]);
                } else {
                    assert(ops@ =~= Seq::<EventPayload>::empty());
                }
                Ok(Step::sending(ops))
            },
            EventPayload::Dispatch(n, e) => {
                self.sequence = Some(n);
                Ok(Step { outbound: Vec::new(), event: Some(e), heartbeat_interval: None, reconnect: false })
            },
            EventPayload::Heartbeat(_) => {
                let mut ops: Vec<EventPayload> = Vec::new();
                ops.push(EventPayload::Heartbeat(self.sequence));
                assert(ops@ =~= seq![EventPayload::Heartbeat(self.sequence)]);
                Ok(Step::sending(ops))
            },
            EventPayload::Reconnect | EventPayload::InvalidSession => {
                Ok(Step { outbound: Vec::new(), event: None, heartbeat_interval: None, reconnect: true })
            },
            _ => {
                let ops: Vec<EventPayload> = Vec::new();
                assert(ops@ =~= Seq::<EventPayload>::empty());
                Ok(Step::sending(ops))
            },
        }
    }

    /// Decodes one text frame and handles it. A frame that does not decode
    /// ends in the decoder's error and leaves the session as it was.
    pub fn handle_frame(&mut self, text: &str) -> (r: Result<Step, GatewayError>)
        requires
            old(self).wf(),
        ensures
            final(self).wf(),
            r is Err ==> *final(self) == *old(self),
            json_of_text(text@) is Err ==> (r matches Err(GatewayError::MalformedPayload { .. })),
            json_of_text(text@) matches Ok(v) ==> {
                &&& EventPayload::accepts(v) ==> exists|p: EventPayload|
                    EventPayload::reads(v, p) && Session::transition(*old(self), p, *final(self), r)
                &&& !EventPayload::accepts(v) ==> r is Err
                &&& EventPayload::missing_sequence(v) ==> (r matches Err(GatewayError::MissingSequenceNumber))
                &&& (EventPayload::unknown_opcode(v) matches Some(c) ==> (r matches Err(GatewayError::UnknownOpcode(c2)) && c2 == c))
            },
    {
        match EventPayload::decode(text) {
            Ok(p) => self.handle(p),
            Err(e) => Err(e),
        }
    }

    /// The heartbeat the timer sends: it carries the last sequence number,
    /// and the session then waits for its acknowledgement.
    pub fn heartbeat(&mut self) -> (r: EventPayload)
        requires
            old(self).wf(),
        ensures
            final(self).wf(),
            r == EventPayload::Heartbeat(old(self).spec_sequence()),
            final(self).spec_awaiting_ack(),
            final(self).spec_state() == old(self).spec_state(),
            Session::keeps_data(*old(self), *final(self)),
    {
        self.awaiting_ack = true;
        EventPayload::Heartbeat(self.sequence)
    }

    pub fn state(&self) -> (r: HandshakeState)
        ensures
            r == self.spec_state(),
    {
        self.state
    }

    /// The sequence number of the last dispatched event.
    pub fn sequence(&self) -> (r: Option<SequenceNumber>)
        ensures
            r == self.spec_sequence(),
    {
        self.sequence
    }

    /// Whether the credentials are still held, that is, not yet sent.
    pub fn has_credentials(&self) -> (r: bool)
        ensures
            r == self.spec_credentials() is Some,
    {
        self.credentials.is_some()
    }

    pub fn heartbeat_interval(&self) -> (r: Option<u64>)
        ensures
            r == self.spec_interval(),
    {
        self.heartbeat_interval
    }

    /// Whether a heartbeat waits for its acknowledgement.
    pub fn awaiting_ack(&self) -> (r: bool)
        ensures
            r == self.spec_awaiting_ack(),
    {
        self.awaiting_ack
    }
}


/// Handshake order: from a fresh session, a hello and then the first
/// acknowledgement make the session send a heartbeat without a sequence
/// number and then exactly one identification, with the session's
/// credentials, which it holds no more.
pub proof fn lemma_handshake_order(
    s0: Session,
    h: Hello,
    s1: Session,
    r1: Result<Step, GatewayError>,
    s2: Session,
    r2: Result<Step, GatewayError>,
)
    requires
        s0.wf(),
        s0.spec_state() == HandshakeState::AwaitingHello,
        Session::transition(s0, EventPayload::Hello(h), s1, r1),
        Session::transition(s1, EventPayload::HeartbeatAck, s2, r2),
    ensures
        r1 is Ok && r2 is Ok,
        r1->Ok_0.outbound@ + r2->Ok_0.outbound@ == seq![
            EventPayload::Heartbeat(None),
            EventPayload::Identify(s0.spec_credentials()->0),
        ],
        s0.spec_credentials() is Some,
        s2.spec_credentials() is None,
        s2.spec_state() == HandshakeState::Identified,
{
    assert(r1->Ok_0.outbound@ + r2->Ok_0.outbound@ =~= seq![
        EventPayload::Heartbeat(None),
        EventPayload::Identify(s0.spec_credentials()->0),
    ]);
}

/// An acknowledgement after the session identified sends nothing and does
/// not fail: the identification is never sent twice.
pub proof fn lemma_ack_after_identified(s: Session, t: Session, r: Result<Step, GatewayError>)
    requires
        s.wf(),
        s.spec_state() == HandshakeState::Identified,
        Session::transition(s, EventPayload::HeartbeatAck, t, r),
    ensures
        r is Ok,
        r->Ok_0.outbound@.len() == 0,
        t.spec_state() == HandshakeState::Identified,
        t.spec_credentials() is None,
{
}

/// The sequence number is the one of the last dispatch handled: a heartbeat
/// requested between two dispatches carries the first one's number, and the
/// second one's number is kept after it.
pub proof fn lemma_heartbeat_echoes_latest(
    s0: Session,
    n1: SequenceNumber,
    e1: Event,
    s1: Session,
    r1: Result<Step, GatewayError>,
    x: Option<SequenceNumber>,
    s2: Session,
    r2: Result<Step, GatewayError>,
    n2: SequenceNumber,
    e2: Event,
    s3: Session,
    r3: Result<Step, GatewayError>,
)
    requires
        s0.wf(),
        Session::transition(s0, EventPayload::Dispatch(n1, e1), s1, r1),
        Session::transition(s1, EventPayload::Heartbeat(x), s2, r2),
        Session::transition(s2, EventPayload::Dispatch(n2, e2), s3, r3),
    ensures
        s1.spec_sequence() == Some(n1),
        r2->Ok_0.outbound@ == seq![EventPayload::Heartbeat(Some(n1))],
        s3.spec_sequence() == Some(n2),
{
}

} // verus!
