//! The envelope `{op, d, s, t}` that every gateway message travels in, and
//! the mapping between it and the operations.

use vstd::prelude::*;
use crate::gateway::events::{Event, Hello, Identify, Opcode, SequenceNumber};
use crate::json::{
    field_of, has_keys, is_number, is_opt_number, json_of_text, keys_of, lemma_field_of_push,
    lemma_keys_of_push, number, opt_number, parse_text, put, read_int, render, render_fields,
    escape_all, escaped, quoted, text_of_u64, read_opt_u64, read_text,
    read_u64, render_text, take_int, take_members, take_opt_u64, take_text, FieldError, JsonValue,
};

verus! {

broadcast use {lemma_field_of_push, lemma_keys_of_push};

/// An operation of the gateway protocol.
#[derive(Debug)]
pub enum EventPayload {
    Dispatch(SequenceNumber, Event),
    Heartbeat(Option<SequenceNumber>),
    Identify(Identify),
    PresenceUpdate,
    VoiceStateUpdate,
    Resume,
    Reconnect,
    RequestGuildMembers,
    InvalidSession,
    Hello(Hello),
    HeartbeatAck,
}

/// What can go wrong on a connection.
#[derive(Debug)]
pub enum GatewayError {
    /// A dispatched event came without its sequence number.
    MissingSequenceNumber,
    /// A message did not have the shape its operation requires.
    MalformedPayload { path: Vec<String>, message: String },
    /// A message named an operation this client does not know; the code is
    /// any integer the message gave, negative ones included.
    UnknownOpcode(i128),
    /// The socket ended or failed.
    TransportClosed,
    /// An operation was to be sent that this client cannot produce yet.
    UnimplementedOperation(Opcode),
    /// An operation that only the gateway sends was to be sent.
    ServerOnlyOperation(Opcode),
    /// The identification was about to be sent a second time.
    ReusedCredentials,
}

/// The names of a path, joined by dots; `.` for the empty path.
pub open spec fn joined(path: Seq<Seq<char>>) -> Seq<char>
    decreases path.len(),
{
    if path.len() == 0 {
        seq!['.']
    } else if path.len() == 1 {
        path[0]
    } else {
        joined(path.drop_last()) + seq!['.'] + path.last()
    }
}

impl GatewayError {
    /// The path of a malformed payload; empty for any other error.
    pub open spec fn spec_path(&self) -> Seq<Seq<char>> {
        match self {
            GatewayError::MalformedPayload { path, .. } => path@.map_values(|s: String| s@),
            _ => Seq::empty(),
        }
    }

    /// Where in the message the error lies, as dotted names.
    pub fn path(&self) -> (r: String)
        ensures
            r@ == joined(self.spec_path()),
    {
        proof {
            reveal_strlit(".");
        }
        match self {
            GatewayError::MalformedPayload { path, .. } => {
                if path.len() == 0 {
                    return ".".to_owned();
                }
                let ghost names = path@.map_values(|s: String| s@);
                let mut out = path[0].clone();
                let mut i: usize = 1;
                assert(names.subrange(0, 1) =~= seq![names[0]]);
                while i < path.len()
                    invariant
                        1 <= i <= path@.len(),
                        names == path@.map_values(|s: String| s@),
                        out@ == joined(names.subrange(0, i as int)),
                    decreases path@.len() - i,
                {
                    proof {
                        reveal_strlit(".");
                    }
                    assert(names.subrange(0, i + 1).drop_last() =~= names.subrange(0, i as int));
                    out.append(".");
                    out.append(path[i].as_str());
                    assert(out@ =~= joined(names.subrange(0, i + 1)));
                    i = i + 1;
                }
                assert(names.subrange(0, path@.len() as int) =~= names);
                out
            },
            _ => {
                assert(Seq::<Seq<char>>::empty().len() == 0);
                ".".to_owned()
            },
        }
    }

    /// A description of the error.
    pub fn message(&self) -> (r: String)
        ensures
            self matches GatewayError::MalformedPayload { message, .. } ==> r@ == message@,
            self is MissingSequenceNumber ==> r@
                == "No sequence number provided for a `Dispatch` event"@,
    {
        match self {
            GatewayError::MissingSequenceNumber => "No sequence number provided for a `Dispatch` event".to_owned(),
            GatewayError::MalformedPayload { message, .. } => message.clone(),
            GatewayError::UnknownOpcode(_) => "unknown opcode".to_owned(),
            GatewayError::TransportClosed => "the connection was closed".to_owned(),
            GatewayError::UnimplementedOperation(_) => "this operation cannot be sent yet".to_owned(),
            GatewayError::ServerOnlyOperation(_) => "only the gateway sends this operation".to_owned(),
            GatewayError::ReusedCredentials => "the identification was already sent".to_owned(),
        }
    }

    fn malformed(e: FieldError) -> (r: GatewayError)
        ensures
            r matches GatewayError::MalformedPayload { path, message } && path == e.path && message
                == e.message,
            r.spec_path() == e.spec_path(),
    {
        GatewayError::MalformedPayload { path: e.path, message: e.message }
    }
}


/// The sequence numbers of an optional counter.
pub open spec fn seq_value(s: Option<SequenceNumber>) -> Option<u64> {
    match s {
        Some(n) => Some(n.0),
        None => None,
    }
}

impl EventPayload {
    pub open spec fn spec_opcode(self) -> Opcode {
        match self {
            EventPayload::Dispatch(_, _) => Opcode::Dispatch,
            EventPayload::Heartbeat(_) => Opcode::Heartbeat,
            EventPayload::Identify(_) => Opcode::Identify,
            EventPayload::PresenceUpdate => Opcode::PresenceUpdate,
            EventPayload::VoiceStateUpdate => Opcode::VoiceStateUpdate,
            EventPayload::Resume => Opcode::Resume,
            EventPayload::Reconnect => Opcode::Reconnect,
            EventPayload::RequestGuildMembers => Opcode::RequestGuildMembers,
            EventPayload::InvalidSession => Opcode::InvalidSession,
            EventPayload::Hello(_) => Opcode::Hello,
            EventPayload::HeartbeatAck => Opcode::HeartbeatAck,
        }
    }

    /// The operation code of this payload.
    pub fn opcode(&self) -> (r: Opcode)
        ensures
            r == self.spec_opcode(),
    {
        match self {
            EventPayload::Dispatch(_, _) => Opcode::Dispatch,
            EventPayload::Heartbeat(_) => Opcode::Heartbeat,
            EventPayload::Identify(_) => Opcode::Identify,
            EventPayload::PresenceUpdate => Opcode::PresenceUpdate,
            EventPayload::VoiceStateUpdate => Opcode::VoiceStateUpdate,
            EventPayload::Resume => Opcode::Resume,
            EventPayload::Reconnect => Opcode::Reconnect,
            EventPayload::RequestGuildMembers => Opcode::RequestGuildMembers,
            EventPayload::InvalidSession => Opcode::InvalidSession,
            EventPayload::Hello(_) => Opcode::Hello,
            EventPayload::HeartbeatAck => Opcode::HeartbeatAck,
        }
    }

    /// The operation an envelope names, where `op` is an integer that names one.
    pub open spec fn op_of(v: JsonValue) -> Option<Opcode> {
        match read_int(v.member("op"@)) {
            Some(c) => if 0 <= c <= u64::MAX {
                Opcode::spec_from_code(c as u64)
            } else {
                None
            },
            None => None,
        }
    }

    /// The code of an envelope whose `op` is an integer that names no operation.
    pub open spec fn unknown_opcode(v: JsonValue) -> Option<int> {
        match read_int(v.member("op"@)) {
            Some(c) => if v is Object && EventPayload::op_of(v) is None {
                Some(c)
            } else {
                None
            },
            None => None,
        }
    }

    /// A well-formed shell of a dispatch that lacks its sequence number.
    pub open spec fn missing_sequence(v: JsonValue) -> bool {
        &&& v is Object
        &&& EventPayload::op_of(v) == Some(Opcode::Dispatch)
        &&& read_opt_u64(v.member("s"@)) == Some(None::<u64>)
    }

    /// The member of the envelope that a malformed message is at fault in;
    /// `None` where the message is not an object at all.
    pub open spec fn fault_member(v: JsonValue) -> Option<Seq<char>> {
        if !(v is Object) {
            None
        } else if read_int(v.member("op"@)) is None {
            Some("op"@)
        } else if read_opt_u64(v.member("s"@)) is None {
            Some("s"@)
        } else if EventPayload::op_of(v) == Some(Opcode::Dispatch) && read_text(v.member("t"@)) is None {
            Some("t"@)
        } else {
            Some("d"@)
        }
    }

    /// The whole path of the fault of a malformed envelope.
    pub open spec fn fault_path(v: JsonValue) -> Seq<Seq<char>> {
        if !(v is Object) {
            Seq::empty()
        } else if read_int(v.member("op"@)) is None {
            seq!["op"@]
        } else if read_opt_u64(v.member("s"@)) is None {
            seq!["s"@]
        } else if EventPayload::op_of(v) == Some(Opcode::Dispatch) {
            if read_text(v.member("t"@)) is None {
                seq!["t"@]
            } else {
                seq!["d"@] + Event::fault_path(read_text(v.member("t"@))->0@, v.member("d"@))
            }
        } else if EventPayload::op_of(v) == Some(Opcode::Identify) {
            seq!["d"@] + match v.member("d"@) {
                Some(x) => Identify::fault_path(x),
                None => Seq::<Seq<char>>::empty(),
            }
        } else if EventPayload::op_of(v) == Some(Opcode::Hello) {
            seq!["d"@] + match v.member("d"@) {
                Some(x) => Hello::fault_path(x),
                None => Seq::<Seq<char>>::empty(),
            }
        } else {
            Seq::empty()
        }
    }

    /// Whether an envelope decodes.
    pub open spec fn accepts(v: JsonValue) -> bool {
        &&& v is Object
        &&& EventPayload::op_of(v) is Some
        &&& read_opt_u64(v.member("s"@)) is Some
        &&& match EventPayload::op_of(v)->0 {
            Opcode::Dispatch => read_opt_u64(v.member("s"@)) != Some(None::<u64>) && (read_text(
                v.member("t"@),
            ) matches Some(t) && Event::accepts(t@, v.member("d"@))),
            Opcode::Identify => v.member("d"@) matches Some(d) && Identify::accepts(d),
            Opcode::Hello => v.member("d"@) matches Some(d) && Hello::read(d) is Some,
            _ => true,
        }
    }

    /// `p` is what the envelope `v` decodes to.
    pub open spec fn reads(v: JsonValue, p: EventPayload) -> bool {
        &&& EventPayload::accepts(v)
        &&& EventPayload::op_of(v) == Some(p.spec_opcode())
        &&& match p {
            EventPayload::Dispatch(s, e) => read_opt_u64(v.member("s"@)) == Some(Some(s.0))
                && Event::reads(read_text(v.member("t"@))->0, v.member("d"@), e),
            EventPayload::Heartbeat(s) => read_opt_u64(v.member("s"@)) == Some(seq_value(s)),
            EventPayload::Identify(i) => Identify::reads(v.member("d"@)->0, i),
            EventPayload::Hello(h) => Hello::read(v.member("d"@)->0) == Some(h),
            _ => true,
        }
    }

    /// What `from_json` promises of its result `r` on the envelope `v`.
    pub open spec fn decoded(v: JsonValue, r: Result<EventPayload, GatewayError>) -> bool {
        &&& r is Ok == EventPayload::accepts(v)
        &&& r matches Ok(p) ==> EventPayload::reads(v, p)
        &&& EventPayload::unknown_opcode(v) matches Some(c) ==> r matches Err(
            GatewayError::UnknownOpcode(c2),
        ) && c2 as int == c
        &&& r matches Err(GatewayError::UnknownOpcode(c)) ==> EventPayload::unknown_opcode(v) == Some(
            c as int,
        )
        &&& (r matches Err(GatewayError::MissingSequenceNumber)) == EventPayload::missing_sequence(v)
        &&& r matches Err(e) ==> (e is UnknownOpcode || e is MissingSequenceNumber || e is MalformedPayload)
        &&& r matches Err(GatewayError::MalformedPayload { path, .. }) ==> match EventPayload::fault_member(v) {
            None => path@.len() == 0,
            Some(k) => path@.len() > 0 && path@[0]@ == k,
        }
        &&& (r is Err && r->Err_0 is MalformedPayload) ==> r->Err_0.spec_path() == EventPayload::fault_path(v)
    }

    /// Decodes an envelope. `op` is read first and decides which other
    /// members are required; an event of a name this client does not read is
    /// kept as it came.
    pub fn from_json(v: JsonValue) -> (r: Result<EventPayload, GatewayError>)
        ensures
            EventPayload::decoded(v, r),
    {
        let fields = match v {
            JsonValue::Object(f) => f,
            _ => return Err(GatewayError::malformed(FieldError::here("invalid type: expected an object"))),
        };
        proof {
            reveal_strlit("op");
            reveal_strlit("s");
            reveal_strlit("t");
            reveal_strlit("d");
            assert("op"@.len() == 2);
            assert("s"@[0] == 's' && "t"@[0] == 't' && "d"@[0] == 'd');
            assert("s"@.len() == 1 && "t"@.len() == 1 && "d"@.len() == 1);
        }
        let keys = vec!["op", "s", "t", "d"];
        let mut m = take_members(fields, &keys);
        let code = match take_int(&m.remove(0)) {
            Some(c) => c,
            None => return Err(GatewayError::malformed(FieldError::at("op", "expected an integer"))),
        };
        let known = if 0 <= code && code <= u64::MAX as i128 {
            Opcode::from_code(code as u64)
        } else {
            None
        };
        let op = match known {
            Some(op) => op,
            None => return Err(GatewayError::UnknownOpcode(code)),
        };
        let seq = match take_opt_u64(&m.remove(0)) {
            Some(s) => s,
            None => return Err(GatewayError::malformed(
                FieldError::at("s", "expected an unsigned integer or null"),
            )),
        };
        let t = m.remove(0);
        let d = m.remove(0);
        match op {
            Opcode::Dispatch => {
                let s = match seq {
                    Some(s) => s,
                    None => return Err(GatewayError::MissingSequenceNumber),
                };
                let name = match take_text(t) {
                    Some(name) => name,
                    None => return Err(GatewayError::malformed(FieldError::at("t", "expected the name of the event"))),
                };
                match Event::from_json(name, d) {
                    Ok(e) => Ok(EventPayload::Dispatch(SequenceNumber(s), e)),
                    Err(e) => Err(GatewayError::malformed(e.within("d"))),
                }
            },
            Opcode::Heartbeat => Ok(
                EventPayload::Heartbeat(
                    match seq {
                        Some(s) => Some(SequenceNumber(s)),
                        None => None,
                    },
                ),
            ),
            Opcode::Identify => match d {
                Some(d) => match Identify::from_json(d) {
                    Ok(i) => Ok(EventPayload::Identify(i)),
                    Err(e) => Err(GatewayError::malformed(e.within("d"))),
                },
                None => Err(GatewayError::malformed(FieldError::at("d", "missing field"))),
            },
            Opcode::PresenceUpdate => Ok(EventPayload::PresenceUpdate),
            Opcode::VoiceStateUpdate => Ok(EventPayload::VoiceStateUpdate),
            Opcode::Resume => Ok(EventPayload::Resume),
            Opcode::Reconnect => Ok(EventPayload::Reconnect),
            Opcode::RequestGuildMembers => Ok(EventPayload::RequestGuildMembers),
            Opcode::InvalidSession => Ok(EventPayload::InvalidSession),
            Opcode::Hello => match d {
                Some(d) => match Hello::from_json(d) {
                    Ok(h) => Ok(EventPayload::Hello(h)),
                    Err(e) => Err(GatewayError::malformed(e.within("d"))),
                },
                None => Err(GatewayError::malformed(FieldError::at("d", "missing field"))),
            },
            Opcode::HeartbeatAck => Ok(EventPayload::HeartbeatAck),
        }
    }

    /// What `envelope` promises: the shell `{op, d, s, t}` of a payload.
    pub open spec fn envelope_of(w: JsonValue, p: EventPayload) -> bool {
        &&& w is Object
        &&& read_u64(w.member("op"@)) == Some(p.spec_opcode().spec_code())
        &&& EventPayload::shell_of(w, p)
        &&& match p {
            EventPayload::Dispatch(s, e) => read_opt_u64(w.member("s"@)) == Some(Some(s.0)) && (w.member(
                "t"@,
            ) matches Some(JsonValue::Text(n)) && n@ == e.spec_name() && (e.well_named() ==> Event::accepts(
                n@,
                w.member("d"@),
            ) && Event::reads(n, w.member("d"@), e))),
            EventPayload::Heartbeat(s) => read_opt_u64(w.member("d"@)) == Some(seq_value(s)) && w.member(
                "s"@,
            ) is None,
            EventPayload::Identify(i) => w.member("d"@) matches Some(x) && Identify::reads(
                x,
                Identify { shard: None, ..i },
            ) && x.member("shard"@) is None && w.member("s"@) is None,
            EventPayload::Hello(h) => w.member("d"@) matches Some(x) && Hello::read(x) == Some(h)
                && w.member("s"@) is None,
            _ => w.member("s"@) is None && w.member("d"@) is None,
        }
    }

    /// The exact shell: which members, in which order, with which values.
    /// A heartbeat is `{"op": 1, "d": n}` with `null` for no number, an
    /// identification `{"op": 2, "d": ...}`, a hello `{"op": 10, "d": ...}`,
    /// a dispatch `{"op": 0, "s": ..., "t": ..., "d": ...}`, and any other
    /// operation `{"op": code}` alone.
    pub open spec fn shell_of(w: JsonValue, p: EventPayload) -> bool {
        &&& is_number(w.member("op"@)->0, p.spec_opcode().spec_code())
        &&& match p {
            EventPayload::Dispatch(s, e) => {
                &&& has_keys(w, seq!["op"@, "s"@, "t"@, "d"@])
                &&& is_number(w.member("s"@)->0, s.0)
                &&& w.member("t"@)->0 matches JsonValue::Text(n) && n@ == e.spec_name()
                &&& e.written(w.member("d"@)->0)
            },
            EventPayload::Heartbeat(s) => {
                &&& has_keys(w, seq!["op"@, "d"@])
                &&& is_opt_number(w.member("d"@)->0, seq_value(s))
            },
            EventPayload::Identify(i) => {
                &&& has_keys(w, seq!["op"@, "d"@])
                &&& i.written(w.member("d"@)->0)
            },
            EventPayload::Hello(h) => {
                &&& has_keys(w, seq!["op"@, "d"@])
                &&& h.written(w.member("d"@)->0)
            },
            _ => has_keys(w, seq!["op"@]),
        }
    }

    /// The envelope of any payload. Only heartbeats and identifications are
    /// sent (see `encode`); the others have a shell for the sake of symmetry.
    pub fn envelope(self) -> (r: JsonValue)
        ensures
            EventPayload::envelope_of(r, self),
    {
        proof {
            reveal_strlit("op");
            reveal_strlit("s");
            reveal_strlit("t");
            reveal_strlit("d");
            assert("op"@.len() == 2);
            assert("s"@[0] == 's' && "t"@[0] == 't' && "d"@[0] == 'd');
            assert("s"@.len() == 1 && "t"@.len() == 1 && "d"@.len() == 1);
        }
        let code = self.opcode().code();
        let mut f: Vec<(String, JsonValue)> = Vec::new();
        assert(keys_of(f@) =~= Seq::<Seq<char>>::empty());
        put(&mut f, "op", number(code));
        match self {
            EventPayload::Dispatch(s, e) => {
                put(&mut f, "s", number(s.0));
                let (name, data) = e.into_json();
                put(&mut f, "t", JsonValue::Text(name));
                put(&mut f, "d", data);
                assert(keys_of(f@) =~= seq!["op"@, "s"@, "t"@, "d"@]);
            },
            EventPayload::Heartbeat(s) => {
                put(
                    &mut f,
                    "d",
                    opt_number(
                        match s {
                            Some(n) => Some(n.0),
                            None => None,
                        },
                    ),
                );
                assert(keys_of(f@) =~= seq!["op"@, "d"@]);
            },
            EventPayload::Identify(i) => {
                put(&mut f, "d", i.to_json());
                assert(keys_of(f@) =~= seq!["op"@, "d"@]);
            },
            EventPayload::Hello(h) => {
                put(&mut f, "d", h.to_json());
                assert(keys_of(f@) =~= seq!["op"@, "d"@]);
            },
            _ => {
                assert(keys_of(f@) =~= seq!["op"@]);
            },
        }
        JsonValue::Object(f)
    }

    /// The envelope of an operation this client sends. Heartbeats and
    /// identifications are sent; the operations that are specified but not
    /// produced yet fail with `UnimplementedOperation`, and those only the
    /// gateway sends with `ServerOnlyOperation`.
    pub fn encode(self) -> (r: Result<JsonValue, GatewayError>)
        ensures
            (self is Heartbeat || self is Identify) ==> (r matches Ok(w) && EventPayload::envelope_of(w, self)),
            (self is PresenceUpdate || self is VoiceStateUpdate || self is Resume || self is RequestGuildMembers)
                ==> (r matches Err(GatewayError::UnimplementedOperation(op)) && op == self.spec_opcode()),
            (self is Dispatch || self is Hello || self is Reconnect || self is InvalidSession
                || self is HeartbeatAck) ==> (r matches Err(GatewayError::ServerOnlyOperation(op)) && op
                == self.spec_opcode()),
    {
        let op = self.opcode();
        match self {
            EventPayload::Heartbeat(_) | EventPayload::Identify(_) => Ok(self.envelope()),
            EventPayload::PresenceUpdate
            | EventPayload::VoiceStateUpdate
            | EventPayload::Resume
            | EventPayload::RequestGuildMembers => Err(GatewayError::UnimplementedOperation(op)),
            _ => Err(GatewayError::ServerOnlyOperation(op)),
        }
    }

    /// The text frame of an operation this client sends: the compact text of
    /// its envelope, whose shell `shell_of` fixes. A heartbeat is exactly
    /// `{"op":1,"d":n}`, with `null` for no number. Fails as `encode` does.
    pub fn encode_text(self) -> (r: Result<String, GatewayError>)
        ensures
            (self is Heartbeat || self is Identify) ==> (r matches Ok(t) && exists|w: JsonValue|
                EventPayload::envelope_of(w, self) && t@ == render(w)),
            self matches EventPayload::Heartbeat(s) ==> (r matches Ok(t) && t@ == heartbeat_text(
                seq_value(s),
            )),
            !(self is Heartbeat || self is Identify) ==> r is Err,
    {
        let ghost p = self;
        match self.encode() {
            Ok(w) => {
                proof {
                    if p is Heartbeat {
                        lemma_heartbeat_render(w, seq_value(p->Heartbeat_0));
                    }
                }
                Ok(render_text(&w))
            },
            Err(e) => Err(e),
        }
    }

    /// Decodes one text frame. A text that is not JSON is a malformed payload
    /// at the top of the message, with the parser's message.
    pub fn decode(text: &str) -> (r: Result<EventPayload, GatewayError>)
        ensures
            match json_of_text(text@) {
                Ok(v) => EventPayload::decoded(v, r),
                Err(m) => r matches Err(GatewayError::MalformedPayload { path, message }) && path@.len()
                    == 0 && message@ == m,
            },
    {
        match parse_text(text) {
            Ok(v) => EventPayload::from_json(v),
            Err(m) => Err(GatewayError::MalformedPayload { path: Vec::new(), message: m }),
        }
    }
}


/// The text of a heartbeat frame.
pub open spec fn heartbeat_text(n: Option<u64>) -> Seq<char> {
    seq!['{', '"', 'o', 'p', '"', ':', '1', ',', '"', 'd', '"', ':'] + match n {
        Some(n) => text_of_u64(n as nat),
        None => seq!['n', 'u', 'l', 'l'],
    } + seq!['}']
}

proof fn lemma_heartbeat_render(w: JsonValue, n: Option<u64>)
    requires
        has_keys(w, seq!["op"@, "d"@]),
        is_number(w.member("op"@)->0, 1),
        is_opt_number(w.member("d"@)->0, n),
    ensures
        render(w) == heartbeat_text(n),
{
    reveal_strlit("op");
    reveal_strlit("d");
    assert("op"@ =~= seq!['o', 'p']);
    assert("d"@ =~= seq!['d']);
    let f = w->Object_0@;
    assert(keys_of(f) == seq!["op"@, "d"@]);
    assert(keys_of(f).len() == f.len());
    assert(f.len() == 2);
    assert(f[0].0@ == keys_of(f)[0]);
    assert(f[1].0@ == keys_of(f)[1]);
    assert(f.drop_last() =~= seq![f[0]]);
    assert(field_of(seq![f[0]], "op"@) == Some(f[0].1)) by {
        assert(seq![f[0]].drop_last() =~= Seq::<(String, JsonValue)>::empty());
    }
    assert(w.member("op"@) == Some(f[0].1));
    assert(w.member("d"@) == Some(f[1].1));
    assert(escaped('o') == seq!['o']);
    assert(escaped('p') == seq!['p']);
    assert(escaped('d') == seq!['d']);
    assert(escape_all(Seq::<char>::empty()) == Seq::<char>::empty());
    assert(escape_all(seq!['o']) =~= seq!['o']) by {
        assert(seq!['o'].drop_last() =~= Seq::<char>::empty());
        assert(escape_all(seq!['o']) == escape_all(seq!['o'].drop_last()) + escaped('o'));
    }
    assert(escape_all(seq!['o', 'p']) =~= seq!['o', 'p']) by {
        assert(seq!['o', 'p'].drop_last() =~= seq!['o']);
        assert(escape_all(seq!['o', 'p']) == escape_all(seq!['o', 'p'].drop_last()) + escaped('p'));
    }
    assert(escape_all(seq!['d']) =~= seq!['d']) by {
        assert(seq!['d'].drop_last() =~= Seq::<char>::empty());
        assert(escape_all(seq!['d']) == escape_all(seq!['d'].drop_last()) + escaped('d'));
    }
    assert(text_of_u64(1) == seq!['1']);
    assert(render(f[1].1) == match n {
        Some(n) => text_of_u64(n as nat),
        None => seq!['n', 'u', 'l', 'l'],
    });
    assert(render_fields(f) == render_fields(f.drop_last()) + seq![','] + quoted(f[1].0@) + seq![':']
        + render(f[1].1));
    assert(render_fields(f.drop_last()) == quoted(f[0].0@) + seq![':'] + render(f[0].1));
    assert(render(w) =~= heartbeat_text(n));
}

/// Decoding a dispatch, writing its envelope again and decoding that gives
/// an operation with the same code, sequence number and event name; a ready
/// event comes back equal, and an event kept as it came comes back as it was.
pub proof fn lemma_dispatch_round_trip(v: JsonValue, p: EventPayload, w: JsonValue)
    requires
        EventPayload::reads(v, p),
        p is Dispatch,
        EventPayload::envelope_of(w, p),
    ensures
        EventPayload::accepts(w),
        forall|q: EventPayload| #[trigger] EventPayload::reads(w, q) ==> (q matches EventPayload::Dispatch(s2, e2)
            && (p matches EventPayload::Dispatch(s1, e1) && s2 == s1 && e2.spec_name() == e1.spec_name() && (
        e1 is Ready ==> e2 == e1) && (e1 is Other ==> q == p))),
{
    reveal_strlit("READY");
    reveal_strlit("VOICE_STATE_UPDATE");
    assert("READY"@.len() == 5 && "VOICE_STATE_UPDATE"@.len() == 18);
}


/// A heartbeat envelope always decodes, to a heartbeat that carries its
/// `s`: none where `s` is null or absent, the number where it is one.
pub proof fn lemma_heartbeat_frame(v: JsonValue, p: EventPayload)
    requires
        v is Object,
        EventPayload::op_of(v) == Some(Opcode::Heartbeat),
        read_opt_u64(v.member("s"@)) is Some,
    ensures
        EventPayload::accepts(v),
        EventPayload::reads(v, p) ==> p == EventPayload::Heartbeat(
            match read_opt_u64(v.member("s"@))->0 {
                Some(n) => Some(SequenceNumber(n)),
                None => None,
            },
        ),
{
}

/// A dispatch envelope without a sequence number fails with
/// `MissingSequenceNumber`, whatever else it holds.
pub proof fn lemma_dispatch_needs_sequence(v: JsonValue, r: Result<EventPayload, GatewayError>)
    requires
        EventPayload::decoded(v, r),
        v is Object,
        read_u64(v.member("op"@)) == Some(0u64),
        read_opt_u64(v.member("s"@)) == Some(None::<u64>),
    ensures
        r matches Err(GatewayError::MissingSequenceNumber),
{
}

/// An envelope whose `op` is an integer that is 5, above 11 or negative
/// fails with `UnknownOpcode`, and the error keeps the code.
pub proof fn lemma_unknown_opcode(v: JsonValue, r: Result<EventPayload, GatewayError>, c: int)
    requires
        EventPayload::decoded(v, r),
        v is Object,
        read_int(v.member("op"@)) == Some(c),
        c == 5 || c > 11 || c < 0,
    ensures
        r matches Err(GatewayError::UnknownOpcode(code)) && code as int == c,
{
}

} // verus!
