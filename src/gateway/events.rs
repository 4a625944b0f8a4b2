//! The operations and events that travel through the gateway, and how each
//! reads from and writes to a JSON value.

use vstd::prelude::*;
use crate::flags::{ApplicationFlags, GatewayIntents};
use crate::json::{
    field_of, has_keys, is_number, is_opt_bool, is_opt_number, is_opt_pair, is_opt_text,
    keys_of, lemma_field_of_push, lemma_keys_of_push, number, push_if, text_of_u64, opt_bool, opt_number, opt_pair, opt_text, put,
    read_bool, read_opt_bool, read_opt_pair, read_opt_text, read_opt_u64, read_text, read_u64,
    str_eq, take_bool, take_members, take_opt_bool, take_opt_pair, take_opt_text, take_opt_u64,
    take_text, take_u64, u64_text, FieldError, JsonValue,
};

verus! {

broadcast use {lemma_field_of_push, lemma_keys_of_push};

/// The operation codes of the envelope.
#[derive(Clone, Copy, Debug, PartialEq, Eq, Structural)]
pub enum Opcode {
    Dispatch,
    Heartbeat,
    Identify,
    PresenceUpdate,
    VoiceStateUpdate,
    Resume,
    Reconnect,
    RequestGuildMembers,
    InvalidSession,
    Hello,
    HeartbeatAck,
}

impl Opcode {
    /// The integer of each operation; 5 is not used.
    pub open spec fn spec_code(self) -> u64 {
        match self {
            Opcode::Dispatch => 0,
            Opcode::Heartbeat => 1,
            Opcode::Identify => 2,
            Opcode::PresenceUpdate => 3,
            Opcode::VoiceStateUpdate => 4,
            Opcode::Resume => 6,
            Opcode::Reconnect => 7,
            Opcode::RequestGuildMembers => 8,
            Opcode::InvalidSession => 9,
            Opcode::Hello => 10,
            Opcode::HeartbeatAck => 11,
        }
    }

    /// The operation whose integer is `code`, if any.
    pub open spec fn spec_from_code(code: u64) -> Option<Opcode> {
        if code == 0 {
            Some(Opcode::Dispatch)
        } else if code == 1 {
            Some(Opcode::Heartbeat)
        } else if code == 2 {
            Some(Opcode::Identify)
        } else if code == 3 {
            Some(Opcode::PresenceUpdate)
        } else if code == 4 {
            Some(Opcode::VoiceStateUpdate)
        } else if code == 6 {
            Some(Opcode::Resume)
        } else if code == 7 {
            Some(Opcode::Reconnect)
        } else if code == 8 {
            Some(Opcode::RequestGuildMembers)
        } else if code == 9 {
            Some(Opcode::InvalidSession)
        } else if code == 10 {
            Some(Opcode::Hello)
        } else if code == 11 {
            Some(Opcode::HeartbeatAck)
        } else {
            None
        }
    }

    pub fn code(&self) -> (r: u64)
        ensures
            r == self.spec_code(),
            Opcode::spec_from_code(r) == Some(*self),
    {
        match self {
            Opcode::Dispatch => 0,
            Opcode::Heartbeat => 1,
            Opcode::Identify => 2,
            Opcode::PresenceUpdate => 3,
            Opcode::VoiceStateUpdate => 4,
            Opcode::Resume => 6,
            Opcode::Reconnect => 7,
            Opcode::RequestGuildMembers => 8,
            Opcode::InvalidSession => 9,
            Opcode::Hello => 10,
            Opcode::HeartbeatAck => 11,
        }
    }

    pub fn from_code(code: u64) -> (r: Option<Opcode>)
        ensures
            r == Opcode::spec_from_code(code),
            r matches Some(op) ==> op.spec_code() == code,
    {
        if code == 0 {
            Some(Opcode::Dispatch)
        } else if code == 1 {
            Some(Opcode::Heartbeat)
        } else if code == 2 {
            Some(Opcode::Identify)
        } else if code == 3 {
            Some(Opcode::PresenceUpdate)
        } else if code == 4 {
            Some(Opcode::VoiceStateUpdate)
        } else if code == 6 {
            Some(Opcode::Resume)
        } else if code == 7 {
            Some(Opcode::Reconnect)
        } else if code == 8 {
            Some(Opcode::RequestGuildMembers)
        } else if code == 9 {
            Some(Opcode::InvalidSession)
        } else if code == 10 {
            Some(Opcode::Hello)
        } else if code == 11 {
            Some(Opcode::HeartbeatAck)
        } else {
            None
        }
    }
}

/// The counter that the gateway puts on each dispatched event.
#[derive(Clone, Copy, Debug, PartialEq, Eq, Structural)]
pub struct SequenceNumber(pub u64);

/// The payload of the first message of the gateway.
#[derive(Clone, Copy, Debug, PartialEq, Eq, Structural)]
pub struct Hello {
    /// Milliseconds between two heartbeats.
    pub heartbeat_interval: u64,
}

impl Hello {
    pub open spec fn read(v: JsonValue) -> Option<Hello> {
        match read_u64(v.member("heartbeat_interval"@)) {
            Some(n) if v is Object => Some(Hello { heartbeat_interval: n }),
            _ => None,
        }
    }

    /// Where an object that is not a hello is at fault.
    pub open spec fn fault_path(v: JsonValue) -> Seq<Seq<char>> {
        if v is Object {
            seq!["heartbeat_interval"@]
        } else {
            Seq::empty()
        }
    }

    /// `v` is exactly the object a hello is written as.
    pub open spec fn written(self, v: JsonValue) -> bool {
        &&& has_keys(v, seq!["heartbeat_interval"@])
        &&& is_number(v.member("heartbeat_interval"@)->0, self.heartbeat_interval)
    }

    pub fn from_json(v: JsonValue) -> (r: Result<Hello, FieldError>)
        ensures
            r is Ok == (Hello::read(v) is Some),
            r matches Ok(x) ==> Hello::read(v) == Some(x),
            r matches Err(e) ==> e.spec_path() == Hello::fault_path(v),
            r matches Err(e) ==> e.spec_path() == Hello::fault_path(v),
    {
        let fields = match v {
            JsonValue::Object(f) => f,
            _ => return Err(FieldError::here("invalid type: expected an object")),
        };
        let keys = vec!["heartbeat_interval"];
        let mut m = take_members(fields, &keys);
        match take_u64(&m.remove(0)) {
            Some(n) => Ok(Hello { heartbeat_interval: n }),
            None => Err(FieldError::at("heartbeat_interval", "expected an unsigned integer")),
        }
    }

    pub fn to_json(&self) -> (r: JsonValue)
        ensures
            Hello::read(r) == Some(*self),
            self.written(r),
    {
        proof {
            assert(Seq::<Seq<char>>::empty().push("heartbeat_interval"@) =~= seq!["heartbeat_interval"@]);
        }
        let mut f: Vec<(String, JsonValue)> = Vec::new();
        assert(keys_of(f@) =~= Seq::<Seq<char>>::empty());
        put(&mut f, "heartbeat_interval", number(self.heartbeat_interval));
        JsonValue::Object(f)
    }
}

/// A payload that is kept as it came, to be handed on or read later.
#[derive(Debug)]
pub struct Unimplemented(pub JsonValue);

pub open spec fn read_unimplemented(v: Option<JsonValue>) -> Option<Unimplemented> {
    match v {
        Some(x) => Some(Unimplemented(x)),
        None => None,
    }
}

pub open spec fn read_opt_unimplemented(v: Option<JsonValue>) -> Option<Option<Unimplemented>> {
    Some(
        match v {
            Some(x) => Some(Unimplemented(x)),
            None => None,
        },
    )
}

fn take_unimplemented(v: Option<JsonValue>) -> (r: Result<Unimplemented, FieldError>)
    ensures
        r is Ok == (read_unimplemented(v) is Some),
        r matches Ok(x) ==> read_unimplemented(v) == Some(x),
        r matches Err(e) ==> e.spec_path() == Seq::<Seq<char>>::empty(),
{
    match v {
        Some(x) => Ok(Unimplemented(x)),
        None => Err(FieldError::here("missing field")),
    }
}

fn take_opt_unimplemented(v: Option<JsonValue>) -> (r: Result<Option<Unimplemented>, FieldError>)
    ensures
        r is Ok,
        r matches Ok(x) ==> read_opt_unimplemented(v) == Some(x),
{
    match v {
        Some(x) => Ok(Some(Unimplemented(x))),
        None => Ok(None),
    }
}

fn write_unimplemented(f: &mut Vec<(String, JsonValue)>, key: &str, x: Unimplemented)
    ensures
        final(f)@ == old(f)@.push(final(f)@.last()),
        final(f)@.last().0@ == key@,
        final(f)@.last().1 == x.0,
        read_unimplemented(field_of(final(f)@, key@)) == Some(x),
        forall|k: Seq<char>| k != key@ ==> #[trigger] field_of(final(f)@, k) == field_of(old(f)@, k),
{
    put(f, key, x.0);
}

/// Writes the member where there is a payload; leaves it out otherwise.
fn write_opt_unimplemented(f: &mut Vec<(String, JsonValue)>, key: &str, x: Option<Unimplemented>)
    requires
        field_of(old(f)@, key@) is None,
    ensures
        x is None ==> final(f)@ == old(f)@,
        x matches Some(u) ==> final(f)@ == old(f)@.push(final(f)@.last()) && final(f)@.last().0@ == key@
            && final(f)@.last().1 == u.0,
        read_opt_unimplemented(field_of(final(f)@, key@)) == Some(x),
        forall|k: Seq<char>| k != key@ ==> #[trigger] field_of(final(f)@, k) == field_of(old(f)@, k),
{
    match x {
        Some(u) => put(f, key, u.0),
        None => {},
    }
}

pub open spec fn read_intents(v: Option<JsonValue>) -> Option<GatewayIntents> {
    match read_u64(v) {
        Some(b) => Some(GatewayIntents::spec_from_bits(b)),
        None => None,
    }
}

fn take_intents(v: Option<JsonValue>) -> (r: Result<GatewayIntents, FieldError>)
    ensures
        r is Ok == (read_intents(v) is Some),
        r matches Ok(x) ==> read_intents(v) == Some(x),
        r matches Err(e) ==> e.spec_path() == Seq::<Seq<char>>::empty(),
{
    match take_u64(&v) {
        Some(b) => Ok(GatewayIntents::from_bits(b)),
        None => Err(FieldError::here("expected an unsigned integer")),
    }
}

fn write_intents(f: &mut Vec<(String, JsonValue)>, key: &str, x: GatewayIntents)
    ensures
        final(f)@ == old(f)@.push(final(f)@.last()),
        final(f)@.last().0@ == key@,
        is_number(final(f)@.last().1, x@),
        read_intents(field_of(final(f)@, key@)) == Some(x),
        forall|k: Seq<char>| k != key@ ==> #[trigger] field_of(final(f)@, k) == field_of(old(f)@, k),
{
    put(f, key, number(x.bits()));
}

pub open spec fn read_app_flags(v: Option<JsonValue>) -> Option<ApplicationFlags> {
    match read_u64(v) {
        Some(b) => Some(ApplicationFlags::spec_from_bits(b)),
        None => None,
    }
}

fn take_app_flags(v: Option<JsonValue>) -> (r: Result<ApplicationFlags, FieldError>)
    ensures
        r is Ok == (read_app_flags(v) is Some),
        r matches Ok(x) ==> read_app_flags(v) == Some(x),
        r matches Err(e) ==> e.spec_path() == Seq::<Seq<char>>::empty(),
{
    match take_u64(&v) {
        Some(b) => Ok(ApplicationFlags::from_bits(b)),
        None => Err(FieldError::here("expected an unsigned integer")),
    }
}

fn write_app_flags(f: &mut Vec<(String, JsonValue)>, key: &str, x: ApplicationFlags)
    ensures
        final(f)@ == old(f)@.push(final(f)@.last()),
        final(f)@.last().0@ == key@,
        is_number(final(f)@.last().1, x@),
        read_app_flags(field_of(final(f)@, key@)) == Some(x),
        forall|k: Seq<char>| k != key@ ==> #[trigger] field_of(final(f)@, k) == field_of(old(f)@, k),
{
    put(f, key, number(x.bits()));
}

/// What a user shows as their availability.
#[derive(Clone, Copy, Debug, PartialEq, Eq, Structural)]
pub enum Status {
    Online,
    Dnd,
    Idle,
    Invisible,
    Offline,
}

pub open spec fn read_status(v: Option<JsonValue>) -> Option<Status> {
    match v {
        Some(JsonValue::Text(s)) => if s@ == "online"@ {
            Some(Status::Online)
        } else if s@ == "dnd"@ {
            Some(Status::Dnd)
        } else if s@ == "idle"@ {
            Some(Status::Idle)
        } else if s@ == "invisible"@ {
            Some(Status::Invisible)
        } else if s@ == "offline"@ {
            Some(Status::Offline)
        } else {
            None
        },
        _ => None,
    }
}

fn take_status(v: Option<JsonValue>) -> (r: Result<Status, FieldError>)
    ensures
        r is Ok == (read_status(v) is Some),
        r matches Ok(x) ==> read_status(v) == Some(x),
        r matches Err(e) ==> e.spec_path() == Seq::<Seq<char>>::empty(),
{
    match v {
        Some(JsonValue::Text(s)) => {
            if str_eq(s.as_str(), "online") {
                Ok(Status::Online)
            } else if str_eq(s.as_str(), "dnd") {
                Ok(Status::Dnd)
            } else if str_eq(s.as_str(), "idle") {
                Ok(Status::Idle)
            } else if str_eq(s.as_str(), "invisible") {
                Ok(Status::Invisible)
            } else if str_eq(s.as_str(), "offline") {
                Ok(Status::Offline)
            } else {
                Err(FieldError::here("unknown status"))
            }
        },
        _ => Err(FieldError::here("expected a string")),
    }
}

impl Status {
    /// The name the status travels as.
    pub open spec fn spec_name(self) -> Seq<char> {
        match self {
            Status::Online => "online"@,
            Status::Dnd => "dnd"@,
            Status::Idle => "idle"@,
            Status::Invisible => "invisible"@,
            Status::Offline => "offline"@,
        }
    }

    pub fn name(&self) -> (r: &'static str)
        ensures
            r@ == self.spec_name(),
    {
        match self {
            Status::Online => "online",
            Status::Dnd => "dnd",
            Status::Idle => "idle",
            Status::Invisible => "invisible",
            Status::Offline => "offline",
        }
    }
}

fn write_status(f: &mut Vec<(String, JsonValue)>, key: &str, x: Status)
    ensures
        final(f)@ == old(f)@.push(final(f)@.last()),
        final(f)@.last().0@ == key@,
        final(f)@.last().1 matches JsonValue::Text(s) && s@ == x.spec_name(),
        read_status(field_of(final(f)@, key@)) == Some(x),
        forall|k: Seq<char>| k != key@ ==> #[trigger] field_of(final(f)@, k) == field_of(old(f)@, k),
{
    proof {
        reveal_strlit("online");
        reveal_strlit("dnd");
        reveal_strlit("idle");
        reveal_strlit("invisible");
        reveal_strlit("offline");
        assert("online"@.len() == 6 && "dnd"@.len() == 3 && "idle"@.len() == 4);
        assert("invisible"@.len() == 9 && "offline"@.len() == 7);
    }
    put(f, key, JsonValue::Text(x.name().to_owned()));
}

/// The properties a client declares of its connection.
#[derive(Debug)]
pub struct ConnectionProperties {
    pub os: String,
    pub browser: String,
    pub device: String,
}

impl ConnectionProperties {
    /// What an object reads as, where it has the shape of this type.
    pub open spec fn read(v: JsonValue) -> Option<ConnectionProperties> {
        if v is Object && read_text(v.member("os"@)) is Some
            && read_text(v.member("browser"@)) is Some
            && read_text(v.member("device"@)) is Some {
            Some(ConnectionProperties {
                os: read_text(v.member("os"@))->0,
                browser: read_text(v.member("browser"@))->0,
                device: read_text(v.member("device"@))->0,
            })
        } else {
            None
        }
    }

    pub open spec fn read_member(v: Option<JsonValue>) -> Option<ConnectionProperties> {
        match v {
            Some(x) => ConnectionProperties::read(x),
            None => None,
        }
    }


    /// Where an object that does not read as this type is at fault: the
    /// names from this object inward; empty where it is not an object.
    pub open spec fn fault_path(v: JsonValue) -> Seq<Seq<char>> {
        if !(v is Object) {
            Seq::empty()
        } else if !(read_text(v.member("os"@)) is Some) {
            seq!["os"@] + (Seq::<Seq<char>>::empty())
        } else if !(read_text(v.member("browser"@)) is Some) {
            seq!["browser"@] + (Seq::<Seq<char>>::empty())
        } else if !(read_text(v.member("device"@)) is Some) {
            seq!["device"@] + (Seq::<Seq<char>>::empty())
        } else {
            Seq::empty()
        }
    }

    /// `v` is exactly the object this value is written as: these members,
    /// in this order, with these values.
    pub open spec fn written(self, v: JsonValue) -> bool {
        &&& has_keys(v, Seq::<Seq<char>>::empty().push("os"@).push("browser"@).push("device"@))
        &&& v.member("os"@)->0 == JsonValue::Text(self.os)
        &&& v.member("browser"@)->0 == JsonValue::Text(self.browser)
        &&& v.member("device"@)->0 == JsonValue::Text(self.device)
    }

    pub fn from_json(v: JsonValue) -> (r: Result<ConnectionProperties, FieldError>)
        ensures
            r is Ok == (ConnectionProperties::read(v) is Some),
            r matches Ok(x) ==> ConnectionProperties::read(v) == Some(x),
            r matches Err(e) ==> e.spec_path() == ConnectionProperties::fault_path(v),
    {
        let fields = match v {
            JsonValue::Object(f) => f,
            _ => return Err(FieldError::here("invalid type: expected an object")),
        };
        proof {
            reveal_strlit("os");
            reveal_strlit("browser");
            reveal_strlit("device");
            assert("os"@.len() == 2);
            assert("browser"@.len() == 7);
            assert("device"@.len() == 6);
        }
        let keys = vec!["os", "browser", "device"];
        let mut m = take_members(fields, &keys);
        let os = match take_text(m.remove(0)) {
            Some(x) => x,
            None => return Err(FieldError::at("os", "expected a string")),
        };
        let browser = match take_text(m.remove(0)) {
            Some(x) => x,
            None => return Err(FieldError::at("browser", "expected a string")),
        };
        let device = match take_text(m.remove(0)) {
            Some(x) => x,
            None => return Err(FieldError::at("device", "expected a string")),
        };
        Ok(ConnectionProperties { os, browser, device })
    }

    pub fn take_member(v: Option<JsonValue>) -> (r: Result<ConnectionProperties, FieldError>)
        ensures
            r is Ok == (ConnectionProperties::read_member(v) is Some),
            r matches Ok(x) ==> ConnectionProperties::read_member(v) == Some(x),
            r matches Err(e) ==> e.spec_path() == match v {
                Some(x) => ConnectionProperties::fault_path(x),
                None => Seq::<Seq<char>>::empty(),
            },
    {
        match v {
            Some(x) => ConnectionProperties::from_json(x),
            None => Err(FieldError::here("missing field")),
        }
    }


    /// The object this value is written as.
    pub fn to_json(self) -> (r: JsonValue)
        ensures
            ConnectionProperties::read(r) == Some(self),
            ConnectionProperties::written(self, r),
            r is Object,
    {
        proof {
            reveal_strlit("os");
            reveal_strlit("browser");
            reveal_strlit("device");
            assert("os"@.len() == 2);
            assert("browser"@.len() == 7);
            assert("device"@.len() == 6);
        }
        let mut f: Vec<(String, JsonValue)> = Vec::new();
        assert(keys_of(f@) =~= Seq::<Seq<char>>::empty());
        put(&mut f, "os", JsonValue::Text(self.os));
        put(&mut f, "browser", JsonValue::Text(self.browser));
        put(&mut f, "device", JsonValue::Text(self.device));
        JsonValue::Object(f)
    }

}

/// The emoji of a custom status.
#[derive(Debug)]
pub struct ActivityEmoji {
    pub name: String,
    pub id: Option<String>,
    pub animated: Option<bool>,
}

/// When an activity started and ends, in Unix milliseconds.
#[derive(Clone, Copy, Debug, PartialEq, Eq, Structural)]
pub struct ActivityTimestamps {
    pub start: Option<u64>,
    pub end: Option<u64>,
}

/// What a user is doing; the member `type` of the wire form is `kind` here.
#[derive(Debug)]
pub struct Activity {
    pub name: String,
    pub kind: u64,
    pub url: Option<String>,
    /// Unix milliseconds.
    pub created_at: u64,
    pub timestamps: Option<ActivityTimestamps>,
    pub application_id: Option<String>,
    pub details: Option<String>,
    pub state: Option<String>,
    pub emoji: Option<ActivityEmoji>,
    pub party: Option<Unimplemented>,
    pub assets: Option<Unimplemented>,
    pub secrets: Option<Unimplemented>,
    pub instance: Option<bool>,
    pub flags: Option<u64>,
    pub buttons: Option<Unimplemented>,
}

impl ActivityEmoji {
    /// What an object reads as, where it has the shape of this type.
    pub open spec fn read(v: JsonValue) -> Option<ActivityEmoji> {
        if v is Object && read_text(v.member("name"@)) is Some
            && read_opt_text(v.member("id"@)) is Some
            && read_opt_bool(v.member("animated"@)) is Some {
            Some(ActivityEmoji {
                name: read_text(v.member("name"@))->0,
                id: read_opt_text(v.member("id"@))->0,
                animated: read_opt_bool(v.member("animated"@))->0,
            })
        } else {
            None
        }
    }


    pub open spec fn read_opt_member(v: Option<JsonValue>) -> Option<Option<ActivityEmoji>> {
        match v {
            None => Some(None),
            Some(JsonValue::Null) => Some(None),
            Some(x) => match ActivityEmoji::read(x) {
                Some(y) => Some(Some(y)),
                None => None,
            },
        }
    }

    /// Where an object that does not read as this type is at fault: the
    /// names from this object inward; empty where it is not an object.
    pub open spec fn fault_path(v: JsonValue) -> Seq<Seq<char>> {
        if !(v is Object) {
            Seq::empty()
        } else if !(read_text(v.member("name"@)) is Some) {
            seq!["name"@] + (Seq::<Seq<char>>::empty())
        } else if !(read_opt_text(v.member("id"@)) is Some) {
            seq!["id"@] + (Seq::<Seq<char>>::empty())
        } else if !(read_opt_bool(v.member("animated"@)) is Some) {
            seq!["animated"@] + (Seq::<Seq<char>>::empty())
        } else {
            Seq::empty()
        }
    }

    /// `v` is exactly the object this value is written as: these members,
    /// in this order, with these values.
    pub open spec fn written(self, v: JsonValue) -> bool {
        &&& has_keys(v, Seq::<Seq<char>>::empty().push("name"@).push("id"@).push("animated"@))
        &&& v.member("name"@)->0 == JsonValue::Text(self.name)
        &&& is_opt_text(v.member("id"@)->0, self.id)
        &&& is_opt_bool(v.member("animated"@)->0, self.animated)
    }

    pub fn from_json(v: JsonValue) -> (r: Result<ActivityEmoji, FieldError>)
        ensures
            r is Ok == (ActivityEmoji::read(v) is Some),
            r matches Ok(x) ==> ActivityEmoji::read(v) == Some(x),
            r matches Err(e) ==> e.spec_path() == ActivityEmoji::fault_path(v),
    {
        let fields = match v {
            JsonValue::Object(f) => f,
            _ => return Err(FieldError::here("invalid type: expected an object")),
        };
        proof {
            reveal_strlit("name");
            reveal_strlit("id");
            reveal_strlit("animated");
            assert("name"@.len() == 4);
            assert("id"@.len() == 2);
            assert("animated"@.len() == 8);
        }
        let keys = vec!["name", "id", "animated"];
        let mut m = take_members(fields, &keys);
        let name = match take_text(m.remove(0)) {
            Some(x) => x,
            None => return Err(FieldError::at("name", "expected a string")),
        };
        let id = match take_opt_text(m.remove(0)) {
            Some(x) => x,
            None => return Err(FieldError::at("id", "expected a string or null")),
        };
        let animated = match take_opt_bool(&m.remove(0)) {
            Some(x) => x,
            None => return Err(FieldError::at("animated", "expected a boolean or null")),
        };
        Ok(ActivityEmoji { name, id, animated })
    }


    pub fn take_opt_member(v: Option<JsonValue>) -> (r: Result<Option<ActivityEmoji>, FieldError>)
        ensures
            r is Ok == (ActivityEmoji::read_opt_member(v) is Some),
            r matches Ok(x) ==> ActivityEmoji::read_opt_member(v) == Some(x),
            r matches Err(e) ==> e.spec_path() == match v {
                Some(x) => ActivityEmoji::fault_path(x),
                None => Seq::<Seq<char>>::empty(),
            },
    {
        match v {
            None => Ok(None),
            Some(JsonValue::Null) => Ok(None),
            Some(x) => match ActivityEmoji::from_json(x) {
                Ok(y) => Ok(Some(y)),
                Err(e) => Err(e),
            },
        }
    }

    /// The object this value is written as.
    pub fn to_json(self) -> (r: JsonValue)
        ensures
            ActivityEmoji::read(r) == Some(self),
            ActivityEmoji::written(self, r),
            r is Object,
    {
        proof {
            reveal_strlit("name");
            reveal_strlit("id");
            reveal_strlit("animated");
            assert("name"@.len() == 4);
            assert("id"@.len() == 2);
            assert("animated"@.len() == 8);
        }
        let mut f: Vec<(String, JsonValue)> = Vec::new();
        assert(keys_of(f@) =~= Seq::<Seq<char>>::empty());
        put(&mut f, "name", JsonValue::Text(self.name));
        put(&mut f, "id", opt_text(self.id));
        put(&mut f, "animated", opt_bool(self.animated));
        JsonValue::Object(f)
    }

    pub fn opt_to_json(v: Option<ActivityEmoji>) -> (r: JsonValue)
        ensures
            ActivityEmoji::read_opt_member(Some(r)) == Some(v),
            match v {
                Some(x) => ActivityEmoji::written(x, r),
                None => r == JsonValue::Null,
            },
    {
        match v {
            Some(x) => x.to_json(),
            None => JsonValue::Null,
        }
    }
}

impl ActivityTimestamps {
    /// What an object reads as, where it has the shape of this type.
    pub open spec fn read(v: JsonValue) -> Option<ActivityTimestamps> {
        if v is Object && read_opt_u64(v.member("start"@)) is Some
            && read_opt_u64(v.member("end"@)) is Some {
            Some(ActivityTimestamps {
                start: read_opt_u64(v.member("start"@))->0,
                end: read_opt_u64(v.member("end"@))->0,
            })
        } else {
            None
        }
    }


    pub open spec fn read_opt_member(v: Option<JsonValue>) -> Option<Option<ActivityTimestamps>> {
        match v {
            None => Some(None),
            Some(JsonValue::Null) => Some(None),
            Some(x) => match ActivityTimestamps::read(x) {
                Some(y) => Some(Some(y)),
                None => None,
            },
        }
    }

    /// Where an object that does not read as this type is at fault: the
    /// names from this object inward; empty where it is not an object.
    pub open spec fn fault_path(v: JsonValue) -> Seq<Seq<char>> {
        if !(v is Object) {
            Seq::empty()
        } else if !(read_opt_u64(v.member("start"@)) is Some) {
            seq!["start"@] + (Seq::<Seq<char>>::empty())
        } else if !(read_opt_u64(v.member("end"@)) is Some) {
            seq!["end"@] + (Seq::<Seq<char>>::empty())
        } else {
            Seq::empty()
        }
    }

    /// `v` is exactly the object this value is written as: these members,
    /// in this order, with these values.
    pub open spec fn written(self, v: JsonValue) -> bool {
        &&& has_keys(v, Seq::<Seq<char>>::empty().push("start"@).push("end"@))
        &&& is_opt_number(v.member("start"@)->0, self.start)
        &&& is_opt_number(v.member("end"@)->0, self.end)
    }

    pub fn from_json(v: JsonValue) -> (r: Result<ActivityTimestamps, FieldError>)
        ensures
            r is Ok == (ActivityTimestamps::read(v) is Some),
            r matches Ok(x) ==> ActivityTimestamps::read(v) == Some(x),
            r matches Err(e) ==> e.spec_path() == ActivityTimestamps::fault_path(v),
    {
        let fields = match v {
            JsonValue::Object(f) => f,
            _ => return Err(FieldError::here("invalid type: expected an object")),
        };
        proof {
            reveal_strlit("start");
            reveal_strlit("end");
            assert("start"@.len() == 5);
            assert("end"@.len() == 3);
        }
        let keys = vec!["start", "end"];
        let mut m = take_members(fields, &keys);
        let start = match take_opt_u64(&m.remove(0)) {
            Some(x) => x,
            None => return Err(FieldError::at("start", "expected an unsigned integer or null")),
        };
        let end = match take_opt_u64(&m.remove(0)) {
            Some(x) => x,
            None => return Err(FieldError::at("end", "expected an unsigned integer or null")),
        };
        Ok(ActivityTimestamps { start, end })
    }


    pub fn take_opt_member(v: Option<JsonValue>) -> (r: Result<Option<ActivityTimestamps>, FieldError>)
        ensures
            r is Ok == (ActivityTimestamps::read_opt_member(v) is Some),
            r matches Ok(x) ==> ActivityTimestamps::read_opt_member(v) == Some(x),
            r matches Err(e) ==> e.spec_path() == match v {
                Some(x) => ActivityTimestamps::fault_path(x),
                None => Seq::<Seq<char>>::empty(),
            },
    {
        match v {
            None => Ok(None),
            Some(JsonValue::Null) => Ok(None),
            Some(x) => match ActivityTimestamps::from_json(x) {
                Ok(y) => Ok(Some(y)),
                Err(e) => Err(e),
            },
        }
    }

    /// The object this value is written as.
    pub fn to_json(self) -> (r: JsonValue)
        ensures
            ActivityTimestamps::read(r) == Some(self),
            ActivityTimestamps::written(self, r),
            r is Object,
    {
        proof {
            reveal_strlit("start");
            reveal_strlit("end");
            assert("start"@.len() == 5);
            assert("end"@.len() == 3);
        }
        let mut f: Vec<(String, JsonValue)> = Vec::new();
        assert(keys_of(f@) =~= Seq::<Seq<char>>::empty());
        put(&mut f, "start", opt_number(self.start));
        put(&mut f, "end", opt_number(self.end));
        JsonValue::Object(f)
    }

    pub fn opt_to_json(v: Option<ActivityTimestamps>) -> (r: JsonValue)
        ensures
            ActivityTimestamps::read_opt_member(Some(r)) == Some(v),
            match v {
                Some(x) => ActivityTimestamps::written(x, r),
                None => r == JsonValue::Null,
            },
    {
        match v {
            Some(x) => x.to_json(),
            None => JsonValue::Null,
        }
    }
}

impl Activity {
    /// What an object reads as, where it has the shape of this type.
    pub open spec fn read(v: JsonValue) -> Option<Activity> {
        if v is Object && read_text(v.member("name"@)) is Some
            && read_u64(v.member("type"@)) is Some
            && read_opt_text(v.member("url"@)) is Some
            && read_u64(v.member("created_at"@)) is Some
            && ActivityTimestamps::read_opt_member(v.member("timestamps"@)) is Some
            && read_opt_text(v.member("application_id"@)) is Some
            && read_opt_text(v.member("details"@)) is Some
            && read_opt_text(v.member("state"@)) is Some
            && ActivityEmoji::read_opt_member(v.member("emoji"@)) is Some
            && read_opt_unimplemented(v.member("party"@)) is Some
            && read_opt_unimplemented(v.member("assets"@)) is Some
            && read_opt_unimplemented(v.member("secrets"@)) is Some
            && read_opt_bool(v.member("instance"@)) is Some
            && read_opt_u64(v.member("flags"@)) is Some
            && read_opt_unimplemented(v.member("buttons"@)) is Some {
            Some(Activity {
                name: read_text(v.member("name"@))->0,
                kind: read_u64(v.member("type"@))->0,
                url: read_opt_text(v.member("url"@))->0,
                created_at: read_u64(v.member("created_at"@))->0,
                timestamps: ActivityTimestamps::read_opt_member(v.member("timestamps"@))->0,
                application_id: read_opt_text(v.member("application_id"@))->0,
                details: read_opt_text(v.member("details"@))->0,
                state: read_opt_text(v.member("state"@))->0,
                emoji: ActivityEmoji::read_opt_member(v.member("emoji"@))->0,
                party: read_opt_unimplemented(v.member("party"@))->0,
                assets: read_opt_unimplemented(v.member("assets"@))->0,
                secrets: read_opt_unimplemented(v.member("secrets"@))->0,
                instance: read_opt_bool(v.member("instance"@))->0,
                flags: read_opt_u64(v.member("flags"@))->0,
                buttons: read_opt_unimplemented(v.member("buttons"@))->0,
            })
        } else {
            None
        }
    }



    /// Where an object that does not read as this type is at fault: the
    /// names from this object inward; empty where it is not an object.
    pub open spec fn fault_path(v: JsonValue) -> Seq<Seq<char>> {
        if !(v is Object) {
            Seq::empty()
        } else if !(read_text(v.member("name"@)) is Some) {
            seq!["name"@] + (Seq::<Seq<char>>::empty())
        } else if !(read_u64(v.member("type"@)) is Some) {
            seq!["type"@] + (Seq::<Seq<char>>::empty())
        } else if !(read_opt_text(v.member("url"@)) is Some) {
            seq!["url"@] + (Seq::<Seq<char>>::empty())
        } else if !(read_u64(v.member("created_at"@)) is Some) {
            seq!["created_at"@] + (Seq::<Seq<char>>::empty())
        } else if !(ActivityTimestamps::read_opt_member(v.member("timestamps"@)) is Some) {
            seq!["timestamps"@] + (match v.member("timestamps"@) { Some(x) => ActivityTimestamps::fault_path(x), None => Seq::<Seq<char>>::empty() })
        } else if !(read_opt_text(v.member("application_id"@)) is Some) {
            seq!["application_id"@] + (Seq::<Seq<char>>::empty())
        } else if !(read_opt_text(v.member("details"@)) is Some) {
            seq!["details"@] + (Seq::<Seq<char>>::empty())
        } else if !(read_opt_text(v.member("state"@)) is Some) {
            seq!["state"@] + (Seq::<Seq<char>>::empty())
        } else if !(ActivityEmoji::read_opt_member(v.member("emoji"@)) is Some) {
            seq!["emoji"@] + (match v.member("emoji"@) { Some(x) => ActivityEmoji::fault_path(x), None => Seq::<Seq<char>>::empty() })
        } else if !(read_opt_unimplemented(v.member("party"@)) is Some) {
            seq!["party"@] + (Seq::<Seq<char>>::empty())
        } else if !(read_opt_unimplemented(v.member("assets"@)) is Some) {
            seq!["assets"@] + (Seq::<Seq<char>>::empty())
        } else if !(read_opt_unimplemented(v.member("secrets"@)) is Some) {
            seq!["secrets"@] + (Seq::<Seq<char>>::empty())
        } else if !(read_opt_bool(v.member("instance"@)) is Some) {
            seq!["instance"@] + (Seq::<Seq<char>>::empty())
        } else if !(read_opt_u64(v.member("flags"@)) is Some) {
            seq!["flags"@] + (Seq::<Seq<char>>::empty())
        } else if !(read_opt_unimplemented(v.member("buttons"@)) is Some) {
            seq!["buttons"@] + (Seq::<Seq<char>>::empty())
        } else {
            Seq::empty()
        }
    }

    /// `v` is exactly the object this value is written as: these members,
    /// in this order, with these values.
    pub open spec fn written(self, v: JsonValue) -> bool {
        &&& has_keys(v, push_if(push_if(push_if(push_if(Seq::<Seq<char>>::empty().push("name"@).push("type"@).push("url"@).push("created_at"@).push("timestamps"@).push("application_id"@).push("details"@).push("state"@).push("emoji"@), self.party is Some, "party"@), self.assets is Some, "assets"@), self.secrets is Some, "secrets"@).push("instance"@).push("flags"@), self.buttons is Some, "buttons"@))
        &&& v.member("name"@)->0 == JsonValue::Text(self.name)
        &&& is_number(v.member("type"@)->0, self.kind)
        &&& is_opt_text(v.member("url"@)->0, self.url)
        &&& is_number(v.member("created_at"@)->0, self.created_at)
        &&& (match self.timestamps { Some(y) => ActivityTimestamps::written(y, v.member("timestamps"@)->0), None => v.member("timestamps"@)->0 == JsonValue::Null })
        &&& is_opt_text(v.member("application_id"@)->0, self.application_id)
        &&& is_opt_text(v.member("details"@)->0, self.details)
        &&& is_opt_text(v.member("state"@)->0, self.state)
        &&& (match self.emoji { Some(y) => ActivityEmoji::written(y, v.member("emoji"@)->0), None => v.member("emoji"@)->0 == JsonValue::Null })
        &&& (self.party matches Some(u) ==> v.member("party"@)->0 == u.0)
        &&& (self.assets matches Some(u) ==> v.member("assets"@)->0 == u.0)
        &&& (self.secrets matches Some(u) ==> v.member("secrets"@)->0 == u.0)
        &&& is_opt_bool(v.member("instance"@)->0, self.instance)
        &&& is_opt_number(v.member("flags"@)->0, self.flags)
        &&& (self.buttons matches Some(u) ==> v.member("buttons"@)->0 == u.0)
    }

    pub fn from_json(v: JsonValue) -> (r: Result<Activity, FieldError>)
        ensures
            r is Ok == (Activity::read(v) is Some),
            r matches Ok(x) ==> Activity::read(v) == Some(x),
            r matches Err(e) ==> e.spec_path() == Activity::fault_path(v),
    {
        let fields = match v {
            JsonValue::Object(f) => f,
            _ => return Err(FieldError::here("invalid type: expected an object")),
        };
        proof {
            reveal_strlit("name");
            reveal_strlit("type");
            reveal_strlit("url");
            reveal_strlit("created_at");
            reveal_strlit("timestamps");
            reveal_strlit("application_id");
            reveal_strlit("details");
            reveal_strlit("state");
            reveal_strlit("emoji");
            reveal_strlit("party");
            reveal_strlit("assets");
            reveal_strlit("secrets");
            reveal_strlit("instance");
            reveal_strlit("flags");
            reveal_strlit("buttons");
            assert("name"@.len() == 4);
            assert("type"@.len() == 4);
            assert("url"@.len() == 3);
            assert("created_at"@.len() == 10);
            assert("timestamps"@.len() == 10);
            assert("application_id"@.len() == 14);
            assert("details"@.len() == 7);
            assert("state"@.len() == 5);
            assert("emoji"@.len() == 5);
            assert("party"@.len() == 5);
            assert("assets"@.len() == 6);
            assert("secrets"@.len() == 7);
            assert("instance"@.len() == 8);
            assert("flags"@.len() == 5);
            assert("buttons"@.len() == 7);
            assert("name"@[0] == 'n' && "type"@[0] == 't');
            assert("created_at"@[0] == 'c' && "timestamps"@[0] == 't');
            assert("details"@[0] == 'd' && "secrets"@[0] == 's');
            assert("details"@[0] == 'd' && "buttons"@[0] == 'b');
            assert("state"@[0] == 's' && "emoji"@[0] == 'e');
            assert("state"@[0] == 's' && "party"@[0] == 'p');
            assert("state"@[0] == 's' && "flags"@[0] == 'f');
            assert("emoji"@[0] == 'e' && "party"@[0] == 'p');
            assert("emoji"@[0] == 'e' && "flags"@[0] == 'f');
            assert("party"@[0] == 'p' && "flags"@[0] == 'f');
            assert("secrets"@[0] == 's' && "buttons"@[0] == 'b');
        }
        let keys = vec!["name", "type", "url", "created_at", "timestamps", "application_id", "details", "state", "emoji", "party", "assets", "secrets", "instance", "flags", "buttons"];
        let mut m = take_members(fields, &keys);
        let name = match take_text(m.remove(0)) {
            Some(x) => x,
            None => return Err(FieldError::at("name", "expected a string")),
        };
        let kind = match take_u64(&m.remove(0)) {
            Some(x) => x,
            None => return Err(FieldError::at("type", "expected an unsigned integer")),
        };
        let url = match take_opt_text(m.remove(0)) {
            Some(x) => x,
            None => return Err(FieldError::at("url", "expected a string or null")),
        };
        let created_at = match take_u64(&m.remove(0)) {
            Some(x) => x,
            None => return Err(FieldError::at("created_at", "expected an unsigned integer")),
        };
        let timestamps = match ActivityTimestamps::take_opt_member(m.remove(0)) {
            Ok(x) => x,
            Err(e) => return Err(e.within("timestamps")),
        };
        let application_id = match take_opt_text(m.remove(0)) {
            Some(x) => x,
            None => return Err(FieldError::at("application_id", "expected a string or null")),
        };
        let details = match take_opt_text(m.remove(0)) {
            Some(x) => x,
            None => return Err(FieldError::at("details", "expected a string or null")),
        };
        let state = match take_opt_text(m.remove(0)) {
            Some(x) => x,
            None => return Err(FieldError::at("state", "expected a string or null")),
        };
        let emoji = match ActivityEmoji::take_opt_member(m.remove(0)) {
            Ok(x) => x,
            Err(e) => return Err(e.within("emoji")),
        };
        let party = match take_opt_unimplemented(m.remove(0)) {
            Ok(x) => x,
            Err(e) => return Err(e.within("party")),
        };
        let assets = match take_opt_unimplemented(m.remove(0)) {
            Ok(x) => x,
            Err(e) => return Err(e.within("assets")),
        };
        let secrets = match take_opt_unimplemented(m.remove(0)) {
            Ok(x) => x,
            Err(e) => return Err(e.within("secrets")),
        };
        let instance = match take_opt_bool(&m.remove(0)) {
            Some(x) => x,
            None => return Err(FieldError::at("instance", "expected a boolean or null")),
        };
        let flags = match take_opt_u64(&m.remove(0)) {
            Some(x) => x,
            None => return Err(FieldError::at("flags", "expected an unsigned integer or null")),
        };
        let buttons = match take_opt_unimplemented(m.remove(0)) {
            Ok(x) => x,
            Err(e) => return Err(e.within("buttons")),
        };
        Ok(Activity { name, kind, url, created_at, timestamps, application_id, details, state, emoji, party, assets, secrets, instance, flags, buttons })
    }



    /// The object this value is written as.
    pub fn to_json(self) -> (r: JsonValue)
        ensures
            Activity::read(r) == Some(self),
            Activity::written(self, r),
            r is Object,
    {
        proof {
            reveal_strlit("name");
            reveal_strlit("type");
            reveal_strlit("url");
            reveal_strlit("created_at");
            reveal_strlit("timestamps");
            reveal_strlit("application_id");
            reveal_strlit("details");
            reveal_strlit("state");
            reveal_strlit("emoji");
            reveal_strlit("party");
            reveal_strlit("assets");
            reveal_strlit("secrets");
            reveal_strlit("instance");
            reveal_strlit("flags");
            reveal_strlit("buttons");
            assert("name"@.len() == 4);
            assert("type"@.len() == 4);
            assert("url"@.len() == 3);
            assert("created_at"@.len() == 10);
            assert("timestamps"@.len() == 10);
            assert("application_id"@.len() == 14);
            assert("details"@.len() == 7);
            assert("state"@.len() == 5);
            assert("emoji"@.len() == 5);
            assert("party"@.len() == 5);
            assert("assets"@.len() == 6);
            assert("secrets"@.len() == 7);
            assert("instance"@.len() == 8);
            assert("flags"@.len() == 5);
            assert("buttons"@.len() == 7);
            assert("name"@[0] == 'n' && "type"@[0] == 't');
            assert("created_at"@[0] == 'c' && "timestamps"@[0] == 't');
            assert("details"@[0] == 'd' && "secrets"@[0] == 's');
            assert("details"@[0] == 'd' && "buttons"@[0] == 'b');
            assert("state"@[0] == 's' && "emoji"@[0] == 'e');
            assert("state"@[0] == 's' && "party"@[0] == 'p');
            assert("state"@[0] == 's' && "flags"@[0] == 'f');
            assert("emoji"@[0] == 'e' && "party"@[0] == 'p');
            assert("emoji"@[0] == 'e' && "flags"@[0] == 'f');
            assert("party"@[0] == 'p' && "flags"@[0] == 'f');
            assert("secrets"@[0] == 's' && "buttons"@[0] == 'b');
        }
        let mut f: Vec<(String, JsonValue)> = Vec::new();
        assert(keys_of(f@) =~= Seq::<Seq<char>>::empty());
        put(&mut f, "name", JsonValue::Text(self.name));
        put(&mut f, "type", number(self.kind));
        put(&mut f, "url", opt_text(self.url));
        put(&mut f, "created_at", number(self.created_at));
        put(&mut f, "timestamps", ActivityTimestamps::opt_to_json(self.timestamps));
        put(&mut f, "application_id", opt_text(self.application_id));
        put(&mut f, "details", opt_text(self.details));
        put(&mut f, "state", opt_text(self.state));
        put(&mut f, "emoji", ActivityEmoji::opt_to_json(self.emoji));
        write_opt_unimplemented(&mut f, "party", self.party);
        write_opt_unimplemented(&mut f, "assets", self.assets);
        write_opt_unimplemented(&mut f, "secrets", self.secrets);
        put(&mut f, "instance", opt_bool(self.instance));
        put(&mut f, "flags", opt_number(self.flags));
        write_opt_unimplemented(&mut f, "buttons", self.buttons);
        JsonValue::Object(f)
    }

}

/// What a list of activities reads as.
pub open spec fn read_activity_seq(items: Seq<JsonValue>) -> Option<Seq<Activity>>
    decreases items.len(),
{
    if items.len() == 0 {
        Some(Seq::empty())
    } else {
        match (read_activity_seq(items.drop_last()), Activity::read(items.last())) {
            (Some(a), Some(x)) => Some(a.push(x)),
            _ => None,
        }
    }
}

pub open spec fn read_activities(v: Option<JsonValue>) -> Option<Seq<Activity>> {
    match v {
        Some(JsonValue::Array(items)) => read_activity_seq(items@),
        _ => None,
    }
}

/// Where a list of activities is at fault, from item `i` on: the index of
/// the first item that does not read, then the path inside it.
pub open spec fn first_bad_activity(items: Seq<JsonValue>, i: nat) -> Seq<Seq<char>>
    decreases items.len() - i,
{
    if i >= items.len() {
        Seq::empty()
    } else if Activity::read(items[i as int]) is None {
        seq![text_of_u64(i)] + Activity::fault_path(items[i as int])
    } else {
        first_bad_activity(items, i + 1)
    }
}

pub open spec fn activities_fault(v: Option<JsonValue>) -> Seq<Seq<char>> {
    match v {
        Some(JsonValue::Array(items)) => first_bad_activity(items@, 0),
        _ => Seq::empty(),
    }
}

/// `v` is exactly the array these activities are written as.
pub open spec fn activities_written(a: Seq<Activity>, v: JsonValue) -> bool {
    v matches JsonValue::Array(items) && items@.len() == a.len() && forall|i: int|
        0 <= i < a.len() ==> Activity::written(#[trigger] a[i], items@[i])
}

proof fn lemma_activity_prefix(items: Seq<JsonValue>, j: int)
    requires
        0 <= j <= items.len(),
        read_activity_seq(items.subrange(0, j)) is None,
    ensures
        read_activity_seq(items) is None,
    decreases items.len(),
{
    if j < items.len() {
        assert(items.drop_last().subrange(0, j) =~= items.subrange(0, j));
        lemma_activity_prefix(items.drop_last(), j);
    } else {
        assert(items.subrange(0, j) =~= items);
    }
}

fn take_activities(v: Option<JsonValue>) -> (r: Result<Vec<Activity>, FieldError>)
    ensures
        r is Ok == (read_activities(v) is Some),
        r matches Ok(x) ==> read_activities(v) == Some(x@),
        r matches Err(e) ==> e.spec_path() == activities_fault(v),
{
    let items = match v {
        Some(JsonValue::Array(items)) => items,
        _ => return Err(FieldError::here("expected an array")),
    };
    let ghost all = items@;
    let total = items.len();
    let mut rest = items;
    let mut out: Vec<Activity> = Vec::new();
    let mut i: usize = 0;
    assert(all.subrange(0, 0) =~= Seq::<JsonValue>::empty());
    while rest.len() > 0
        invariant
            i <= all.len(),
            all.len() == total,
            rest@ == all.subrange(i as int, all.len() as int),
            read_activity_seq(all.subrange(0, i as int)) == Some(out@),
            read_activities(v) == read_activity_seq(all),
            activities_fault(v) == first_bad_activity(all, i as nat),
        decreases rest@.len(),
    {
        assert(i < all.len());
        let x = rest.remove(0);
        assert(x == all[i as int]);
        assert(all.subrange(0, i + 1).drop_last() =~= all.subrange(0, i as int));
        assert(rest@ =~= all.subrange(i + 1, all.len() as int));
        match Activity::from_json(x) {
            Ok(a) => {
                out.push(a);
            },
            Err(e) => {
                proof {
                    assert(Activity::read(all.subrange(0, i + 1).last()) is None);
                    assert(read_activity_seq(all.subrange(0, i + 1)) is None);
                    lemma_activity_prefix(all, i + 1);
                    assert(read_activity_seq(all) is None);
                }
                let index = u64_text(i as u64);
                return Err(e.within(index.as_str()));
            },
        }
        i = i + 1;
    }
    assert(all.subrange(0, all.len() as int) =~= all);
    Ok(out)
}

fn write_activities(f: &mut Vec<(String, JsonValue)>, key: &str, x: Vec<Activity>)
    ensures
        final(f)@ == old(f)@.push(final(f)@.last()),
        final(f)@.last().0@ == key@,
        activities_written(x@, final(f)@.last().1),
        read_activities(field_of(final(f)@, key@)) == Some(x@),
        forall|k: Seq<char>| k != key@ ==> #[trigger] field_of(final(f)@, k) == field_of(old(f)@, k),
{
    let ghost all = x@;
    let total = x.len();
    let mut rest = x;
    let mut out: Vec<JsonValue> = Vec::new();
    let mut i: usize = 0;
    assert(all.subrange(0, 0) =~= Seq::<Activity>::empty());
    while rest.len() > 0
        invariant
            i <= all.len(),
            all.len() == total,
            rest@ == all.subrange(i as int, all.len() as int),
            out@.len() == i,
            read_activity_seq(out@) == Some(all.subrange(0, i as int)),
            forall|j: int| 0 <= j < i ==> Activity::written(#[trigger] all[j], out@[j]),
        decreases rest@.len(),
    {
        assert(i < all.len());
        let a = rest.remove(0);
        assert(a == all[i as int]);
        assert(rest@ =~= all.subrange(i + 1, all.len() as int));
        let ghost before = out@;
        out.push(a.to_json());
        assert(out@.drop_last() =~= before);
        assert(all.subrange(0, i + 1) =~= all.subrange(0, i as int).push(all[i as int]));
        i = i + 1;
    }
    assert(all.subrange(0, all.len() as int) =~= all);
    put(f, key, JsonValue::Array(out));
}

/// A user's presence: the status and activities it shows.
#[derive(Debug)]
pub struct PresenceUpdate {
    /// Unix milliseconds since the client went idle; `None` when it is not idle.
    pub since: Option<u64>,
    pub activities: Vec<Activity>,
    pub status: Status,
    pub afk: Option<bool>,
}

impl PresenceUpdate {
    /// Whether an object has the shape of a presence.
    pub open spec fn accepts(v: JsonValue) -> bool {
        &&& v is Object
        &&& read_opt_u64(v.member("since"@)) is Some
        &&& read_activities(v.member("activities"@)) is Some
        &&& read_status(v.member("status"@)) is Some
        &&& read_opt_bool(v.member("afk"@)) is Some
    }

    /// `p` is what the object `v` reads as.
    pub open spec fn reads(v: JsonValue, p: PresenceUpdate) -> bool {
        &&& PresenceUpdate::accepts(v)
        &&& read_opt_u64(v.member("since"@)) == Some(p.since)
        &&& read_activities(v.member("activities"@)) == Some(p.activities@)
        &&& read_status(v.member("status"@)) == Some(p.status)
        &&& read_opt_bool(v.member("afk"@)) == Some(p.afk)
    }

    /// Where an object that does not read as this type is at fault: the
    /// names from this object inward; empty where it is not an object.
    pub open spec fn fault_path(v: JsonValue) -> Seq<Seq<char>> {
        if !(v is Object) {
            Seq::empty()
        } else if !(read_opt_u64(v.member("since"@)) is Some) {
            seq!["since"@] + (Seq::<Seq<char>>::empty())
        } else if !(read_activities(v.member("activities"@)) is Some) {
            seq!["activities"@] + (activities_fault(v.member("activities"@)))
        } else if !(read_status(v.member("status"@)) is Some) {
            seq!["status"@] + (Seq::<Seq<char>>::empty())
        } else if !(read_opt_bool(v.member("afk"@)) is Some) {
            seq!["afk"@] + (Seq::<Seq<char>>::empty())
        } else {
            Seq::empty()
        }
    }

    /// `v` is exactly the object this value is written as: these members,
    /// in this order, with these values.
    pub open spec fn written(self, v: JsonValue) -> bool {
        &&& has_keys(v, Seq::<Seq<char>>::empty().push("since"@).push("activities"@).push("status"@).push("afk"@))
        &&& is_opt_number(v.member("since"@)->0, self.since)
        &&& activities_written(self.activities@, v.member("activities"@)->0)
        &&& (v.member("status"@)->0 matches JsonValue::Text(s) && s@ == self.status.spec_name())
        &&& is_opt_bool(v.member("afk"@)->0, self.afk)
    }

    pub fn from_json(v: JsonValue) -> (r: Result<PresenceUpdate, FieldError>)
        ensures
            r is Ok == PresenceUpdate::accepts(v),
            r matches Ok(x) ==> PresenceUpdate::reads(v, x),
            r matches Err(e) ==> e.spec_path() == PresenceUpdate::fault_path(v),
    {
        let fields = match v {
            JsonValue::Object(f) => f,
            _ => return Err(FieldError::here("invalid type: expected an object")),
        };
        proof {
            reveal_strlit("since");
            reveal_strlit("activities");
            reveal_strlit("status");
            reveal_strlit("afk");
            assert("since"@.len() == 5);
            assert("activities"@.len() == 10);
            assert("status"@.len() == 6);
            assert("afk"@.len() == 3);
        }
        let keys = vec!["since", "activities", "status", "afk"];
        let mut m = take_members(fields, &keys);
        let since = match take_opt_u64(&m.remove(0)) {
            Some(x) => x,
            None => return Err(FieldError::at("since", "expected an unsigned integer or null")),
        };
        let activities = match take_activities(m.remove(0)) {
            Ok(x) => x,
            Err(e) => return Err(e.within("activities")),
        };
        let status = match take_status(m.remove(0)) {
            Ok(x) => x,
            Err(e) => return Err(e.within("status")),
        };
        let afk = match take_opt_bool(&m.remove(0)) {
            Some(x) => x,
            None => return Err(FieldError::at("afk", "expected a boolean or null")),
        };
        Ok(PresenceUpdate { since, activities, status, afk })
    }

    pub fn to_json(self) -> (r: JsonValue)
        ensures
            PresenceUpdate::reads(r, self),
            PresenceUpdate::written(self, r),
    {
        proof {
            reveal_strlit("since");
            reveal_strlit("activities");
            reveal_strlit("status");
            reveal_strlit("afk");
            assert("since"@.len() == 5);
            assert("activities"@.len() == 10);
            assert("status"@.len() == 6);
            assert("afk"@.len() == 3);
        }
        let mut f: Vec<(String, JsonValue)> = Vec::new();
        assert(keys_of(f@) =~= Seq::<Seq<char>>::empty());
        put(&mut f, "since", opt_number(self.since));
        write_activities(&mut f, "activities", self.activities);
        write_status(&mut f, "status", self.status);
        put(&mut f, "afk", opt_bool(self.afk));
        JsonValue::Object(f)
    }
}

/// The credentials and declarations a client sends once, to identify itself.
#[derive(Debug)]
pub struct Identify {
    pub token: String,
    pub properties: ConnectionProperties,
    pub compress: Option<bool>,
    pub large_threshold: Option<u64>,
    /// Never written to the wire.
    pub shard: Option<(u64, u64)>,
    pub presence: PresenceUpdate,
    pub intents: GatewayIntents,
}

impl Identify {
    /// Whether an object has the shape of an identification.
    pub open spec fn accepts(v: JsonValue) -> bool {
        &&& v is Object
        &&& read_text(v.member("token"@)) is Some
        &&& ConnectionProperties::read_member(v.member("properties"@)) is Some
        &&& read_opt_bool(v.member("compress"@)) is Some
        &&& read_opt_u64(v.member("large_threshold"@)) is Some
        &&& read_opt_pair(v.member("shard"@)) is Some
        &&& v.member("presence"@) matches Some(p) && PresenceUpdate::accepts(p)
        &&& read_intents(v.member("intents"@)) is Some
    }

    /// `x` is what the object `v` reads as.
    pub open spec fn reads(v: JsonValue, x: Identify) -> bool {
        &&& Identify::accepts(v)
        &&& read_text(v.member("token"@)) == Some(x.token)
        &&& ConnectionProperties::read_member(v.member("properties"@)) == Some(x.properties)
        &&& read_opt_bool(v.member("compress"@)) == Some(x.compress)
        &&& read_opt_u64(v.member("large_threshold"@)) == Some(x.large_threshold)
        &&& read_opt_pair(v.member("shard"@)) == Some(x.shard)
        &&& PresenceUpdate::reads(v.member("presence"@)->0, x.presence)
        &&& read_intents(v.member("intents"@)) == Some(x.intents)
    }

    /// Where an object that does not read as this type is at fault: the
    /// names from this object inward; empty where it is not an object.
    pub open spec fn fault_path(v: JsonValue) -> Seq<Seq<char>> {
        if !(v is Object) {
            Seq::empty()
        } else if !(read_text(v.member("token"@)) is Some) {
            seq!["token"@] + (Seq::<Seq<char>>::empty())
        } else if !(ConnectionProperties::read_member(v.member("properties"@)) is Some) {
            seq!["properties"@] + (match v.member("properties"@) { Some(x) => ConnectionProperties::fault_path(x), None => Seq::<Seq<char>>::empty() })
        } else if !(read_opt_bool(v.member("compress"@)) is Some) {
            seq!["compress"@] + (Seq::<Seq<char>>::empty())
        } else if !(read_opt_u64(v.member("large_threshold"@)) is Some) {
            seq!["large_threshold"@] + (Seq::<Seq<char>>::empty())
        } else if !(read_opt_pair(v.member("shard"@)) is Some) {
            seq!["shard"@] + (Seq::<Seq<char>>::empty())
        } else if !((v.member("presence"@) matches Some(x) && PresenceUpdate::accepts(x))) {
            seq!["presence"@] + (match v.member("presence"@) { Some(x) => PresenceUpdate::fault_path(x), None => Seq::<Seq<char>>::empty() })
        } else if !(read_intents(v.member("intents"@)) is Some) {
            seq!["intents"@] + (Seq::<Seq<char>>::empty())
        } else {
            Seq::empty()
        }
    }

    /// `v` is exactly the object this value is written as: these members,
    /// in this order, with these values.
    pub open spec fn written(self, v: JsonValue) -> bool {
        &&& has_keys(v, Seq::<Seq<char>>::empty().push("token"@).push("properties"@).push("compress"@).push("large_threshold"@).push("presence"@).push("intents"@))
        &&& v.member("token"@)->0 == JsonValue::Text(self.token)
        &&& ConnectionProperties::written(self.properties, v.member("properties"@)->0)
        &&& is_opt_bool(v.member("compress"@)->0, self.compress)
        &&& is_opt_number(v.member("large_threshold"@)->0, self.large_threshold)
        &&& PresenceUpdate::written(self.presence, v.member("presence"@)->0)
        &&& is_number(v.member("intents"@)->0, self.intents@)
    }

    pub fn from_json(v: JsonValue) -> (r: Result<Identify, FieldError>)
        ensures
            r is Ok == Identify::accepts(v),
            r matches Ok(x) ==> Identify::reads(v, x),
            r matches Err(e) ==> e.spec_path() == Identify::fault_path(v),
    {
        let fields = match v {
            JsonValue::Object(f) => f,
            _ => return Err(FieldError::here("invalid type: expected an object")),
        };
        proof {
            reveal_strlit("token");
            reveal_strlit("properties");
            reveal_strlit("compress");
            reveal_strlit("large_threshold");
            reveal_strlit("shard");
            reveal_strlit("presence");
            reveal_strlit("intents");
            assert("token"@.len() == 5);
            assert("properties"@.len() == 10);
            assert("compress"@.len() == 8);
            assert("large_threshold"@.len() == 15);
            assert("shard"@.len() == 5);
            assert("presence"@.len() == 8);
            assert("intents"@.len() == 7);
            assert("token"@[0] == 't' && "shard"@[0] == 's');
            assert("compress"@[0] == 'c' && "presence"@[0] == 'p');
        }
        let keys = vec!["token", "properties", "compress", "large_threshold", "shard", "presence", "intents"];
        let mut m = take_members(fields, &keys);
        let token = match take_text(m.remove(0)) {
            Some(x) => x,
            None => return Err(FieldError::at("token", "expected a string")),
        };
        let properties = match ConnectionProperties::take_member(m.remove(0)) {
            Ok(x) => x,
            Err(e) => return Err(e.within("properties")),
        };
        let compress = match take_opt_bool(&m.remove(0)) {
            Some(x) => x,
            None => return Err(FieldError::at("compress", "expected a boolean or null")),
        };
        let large_threshold = match take_opt_u64(&m.remove(0)) {
            Some(x) => x,
            None => return Err(FieldError::at("large_threshold", "expected an unsigned integer or null")),
        };
        let shard = match take_opt_pair(&m.remove(0)) {
            Some(x) => x,
            None => return Err(FieldError::at("shard", "expected a pair of unsigned integers or null")),
        };
        let presence = match m.remove(0) {
            Some(p) => match PresenceUpdate::from_json(p) {
                Ok(x) => x,
                Err(e) => return Err(e.within("presence")),
            },
            None => return Err(FieldError::at("presence", "missing field")),
        };
        let intents = match take_intents(m.remove(0)) {
            Ok(x) => x,
            Err(e) => return Err(e.within("intents")),
        };
        Ok(Identify { token, properties, compress, large_threshold, shard, presence, intents })
    }

    /// The object this identification is written as; `shard` stays out of it.
    pub fn to_json(self) -> (r: JsonValue)
        ensures
            Identify::reads(r, Identify { shard: None, ..self }),
            Identify::written(self, r),
            r.member("shard"@) is None,
    {
        proof {
            reveal_strlit("token");
            reveal_strlit("properties");
            reveal_strlit("compress");
            reveal_strlit("large_threshold");
            reveal_strlit("shard");
            reveal_strlit("presence");
            reveal_strlit("intents");
            assert("token"@.len() == 5);
            assert("properties"@.len() == 10);
            assert("compress"@.len() == 8);
            assert("large_threshold"@.len() == 15);
            assert("shard"@.len() == 5);
            assert("presence"@.len() == 8);
            assert("intents"@.len() == 7);
            assert("token"@[0] == 't' && "shard"@[0] == 's');
            assert("compress"@[0] == 'c' && "presence"@[0] == 'p');
        }
        let mut f: Vec<(String, JsonValue)> = Vec::new();
        assert(keys_of(f@) =~= Seq::<Seq<char>>::empty());
        put(&mut f, "token", JsonValue::Text(self.token));
        put(&mut f, "properties", self.properties.to_json());
        put(&mut f, "compress", opt_bool(self.compress));
        put(&mut f, "large_threshold", opt_number(self.large_threshold));
        put(&mut f, "presence", self.presence.to_json());
        write_intents(&mut f, "intents", self.intents);
        JsonValue::Object(f)
    }
}

/// What the time crate reads from an ISO 8601 text: the instant in Unix
/// nanoseconds and the UTC offset in seconds, or the message of its error.
pub uninterp spec fn iso8601_of(text: Seq<char>) -> Result<(i128, i32), Seq<char>>;

/// Relies on time's `OffsetDateTime::parse` with the default ISO 8601
/// description: the result depends on the text alone.
#[verifier::external_body]
fn parse_iso8601(text: &str) -> (r: Result<(i128, i32), String>)
    ensures
        match r {
            Ok(p) => iso8601_of(text@) == Ok::<(i128, i32), Seq<char>>(p),
            Err(e) => iso8601_of(text@) == Err::<(i128, i32), Seq<char>>(e@),
        },
{
    let format = time::format_description::well_known::Iso8601::DEFAULT;
    match time::OffsetDateTime::parse(text, &format) {
        Ok(t) => Ok((t.unix_timestamp_nanos(), t.offset().whole_seconds())),
        Err(e) => Err(e.to_string()),
    }
}

/// A point in time with its UTC offset, kept with the ISO 8601 text it was
/// read from.
#[derive(Debug)]
pub struct Timestamp {
    text: String,
    unix_nanos: i128,
    offset_seconds: i32,
}

impl Timestamp {
    /// The text reads as this instant and offset.
    #[verifier::type_invariant]
    spec fn parsed(self) -> bool {
        iso8601_of(self.text@) == Ok::<(i128, i32), Seq<char>>((self.unix_nanos, self.offset_seconds))
    }

    pub closed spec fn spec_text(self) -> Seq<char> {
        self.text@
    }

    pub closed spec fn spec_unix_nanos(self) -> i128 {
        self.unix_nanos
    }

    pub closed spec fn spec_offset_seconds(self) -> i32 {
        self.offset_seconds
    }

    /// Reads an ISO 8601 text; the error is the time crate's message.
    pub fn parse(text: String) -> (r: Result<Timestamp, String>)
        ensures
            match r {
                Ok(t) => t.spec_text() == text@ && iso8601_of(text@) == Ok::<(i128, i32), Seq<char>>(
                    (t.spec_unix_nanos(), t.spec_offset_seconds()),
                ),
                Err(e) => iso8601_of(text@) == Err::<(i128, i32), Seq<char>>(e@),
            },
    {
        match parse_iso8601(text.as_str()) {
            Ok(p) => Ok(Timestamp { text, unix_nanos: p.0, offset_seconds: p.1 }),
            Err(e) => Err(e),
        }
    }

    pub fn text(&self) -> (r: &str)
        ensures
            r@ == self.spec_text(),
    {
        self.text.as_str()
    }

    /// Nanoseconds since the Unix epoch.
    pub fn unix_nanos(&self) -> (r: i128)
        ensures
            r == self.spec_unix_nanos(),
    {
        self.unix_nanos
    }

    /// The offset from UTC, in seconds.
    pub fn offset_seconds(&self) -> (r: i32)
        ensures
            r == self.spec_offset_seconds(),
    {
        self.offset_seconds
    }

    /// Every timestamp is what its own text reads as.
    pub fn lemma_parsed(&self)
        ensures
            iso8601_of(self.spec_text()) == Ok::<(i128, i32), Seq<char>>(
                (self.spec_unix_nanos(), self.spec_offset_seconds()),
            ),
    {
        proof {
            use_type_invariant(self);
        }
    }

    fn into_text(self) -> (r: String)
        ensures
            r@ == self.spec_text(),
            iso8601_of(r@) == Ok::<(i128, i32), Seq<char>>((self.spec_unix_nanos(), self.spec_offset_seconds())),
    {
        proof {
            use_type_invariant(&self);
        }
        self.text
    }
}

/// An optional timestamp member: `Some(None)` where it is absent or `null`,
/// the timestamp where its text reads as one, and `None` otherwise.
pub open spec fn read_opt_timestamp(v: Option<JsonValue>) -> Option<Option<(Seq<char>, i128, i32)>> {
    match v {
        None => Some(None),
        Some(JsonValue::Null) => Some(None),
        Some(JsonValue::Text(s)) => match iso8601_of(s@) {
            Ok(p) => Some(Some((s@, p.0, p.1))),
            Err(_) => None,
        },
        _ => None,
    }
}

/// What a timestamp is, seen through `read_opt_timestamp`.
pub open spec fn timestamp_parts(t: Option<Timestamp>) -> Option<(Seq<char>, i128, i32)> {
    match t {
        Some(t) => Some((t.spec_text(), t.spec_unix_nanos(), t.spec_offset_seconds())),
        None => None,
    }
}

/// `v` is exactly what an optional timestamp is written as: its text, or `null`.
pub open spec fn timestamp_written(t: Option<Timestamp>, v: JsonValue) -> bool {
    match t {
        Some(t) => v matches JsonValue::Text(s) && s@ == t.spec_text(),
        None => v == JsonValue::Null,
    }
}

fn take_opt_timestamp(v: Option<JsonValue>) -> (r: Result<Option<Timestamp>, FieldError>)
    ensures
        r is Ok == (read_opt_timestamp(v) is Some),
        r matches Ok(x) ==> read_opt_timestamp(v) == Some(timestamp_parts(x)),
        r matches Err(e) ==> e.spec_path() == Seq::<Seq<char>>::empty(),
{
    match v {
        None => Ok(None),
        Some(JsonValue::Null) => Ok(None),
        Some(JsonValue::Text(s)) => match Timestamp::parse(s) {
            Ok(t) => Ok(Some(t)),
            Err(e) => {
                let r = FieldError { path: Vec::new(), message: e };
                assert(r.spec_path() =~= Seq::<Seq<char>>::empty());
                Err(r)
            },
        },
        _ => Err(FieldError::here("expected a timestamp string or null")),
    }
}

fn write_opt_timestamp(f: &mut Vec<(String, JsonValue)>, key: &str, x: Option<Timestamp>)
    ensures
        final(f)@ == old(f)@.push(final(f)@.last()),
        final(f)@.last().0@ == key@,
        timestamp_written(x, final(f)@.last().1),
        read_opt_timestamp(field_of(final(f)@, key@)) == Some(timestamp_parts(x)),
        forall|k: Seq<char>| k != key@ ==> #[trigger] field_of(final(f)@, k) == field_of(old(f)@, k),
{
    match x {
        Some(t) => put(f, key, JsonValue::Text(t.into_text())),
        None => put(f, key, JsonValue::Null),
    }
}

/// A user's connection to a voice channel.
#[derive(Debug)]
pub struct VoiceState {
    pub guild_id: Option<String>,
    pub channel_id: Option<String>,
    pub user_id: String,
    /// The guild member, kept as it came.
    pub member: Option<Unimplemented>,
    pub session_id: String,
    pub deaf: bool,
    pub mute: bool,
    pub self_deaf: bool,
    pub self_mute: bool,
    pub self_stream: Option<bool>,
    pub self_video: bool,
    pub suppress: bool,
    pub request_to_speak_timestamp: Option<Timestamp>,
}

/// The application of the connected client, as the ready event gives it.
#[derive(Debug)]
pub struct UnavailableApplication {
    pub id: String,
    pub flags: ApplicationFlags,
}

/// The payload of the ready event: what a later resume needs, and the rest
/// kept as it came.
#[derive(Debug)]
pub struct Ready {
    /// The protocol version.
    pub v: u64,
    pub user: Unimplemented,
    pub guilds: Unimplemented,
    pub session_id: String,
    pub resume_gateway_url: String,
    pub shard: Option<(u64, u64)>,
    pub application: UnavailableApplication,
}

impl VoiceState {
    /// Whether an object has the shape of this type.
    pub open spec fn accepts(v: JsonValue) -> bool {
        &&& v is Object
        &&& read_opt_text(v.member("guild_id"@)) is Some
        &&& read_opt_text(v.member("channel_id"@)) is Some
        &&& read_text(v.member("user_id"@)) is Some
        &&& read_opt_unimplemented(v.member("member"@)) is Some
        &&& read_text(v.member("session_id"@)) is Some
        &&& read_bool(v.member("deaf"@)) is Some
        &&& read_bool(v.member("mute"@)) is Some
        &&& read_bool(v.member("self_deaf"@)) is Some
        &&& read_bool(v.member("self_mute"@)) is Some
        &&& read_opt_bool(v.member("self_stream"@)) is Some
        &&& read_bool(v.member("self_video"@)) is Some
        &&& read_bool(v.member("suppress"@)) is Some
        &&& read_opt_timestamp(v.member("request_to_speak_timestamp"@)) is Some
    }

    /// `x` is what the object `v` reads as.
    pub open spec fn reads(v: JsonValue, x: VoiceState) -> bool {
        &&& VoiceState::accepts(v)
        &&& read_opt_text(v.member("guild_id"@)) == Some(x.guild_id)
        &&& read_opt_text(v.member("channel_id"@)) == Some(x.channel_id)
        &&& read_text(v.member("user_id"@)) == Some(x.user_id)
        &&& read_opt_unimplemented(v.member("member"@)) == Some(x.member)
        &&& read_text(v.member("session_id"@)) == Some(x.session_id)
        &&& read_bool(v.member("deaf"@)) == Some(x.deaf)
        &&& read_bool(v.member("mute"@)) == Some(x.mute)
        &&& read_bool(v.member("self_deaf"@)) == Some(x.self_deaf)
        &&& read_bool(v.member("self_mute"@)) == Some(x.self_mute)
        &&& read_opt_bool(v.member("self_stream"@)) == Some(x.self_stream)
        &&& read_bool(v.member("self_video"@)) == Some(x.self_video)
        &&& read_bool(v.member("suppress"@)) == Some(x.suppress)
        &&& read_opt_timestamp(v.member("request_to_speak_timestamp"@)) == Some(timestamp_parts(x.request_to_speak_timestamp))
    }

    /// Where an object that does not read as this type is at fault: the
    /// names from this object inward; empty where it is not an object.
    pub open spec fn fault_path(v: JsonValue) -> Seq<Seq<char>> {
        if !(v is Object) {
            Seq::empty()
        } else if !(read_opt_text(v.member("guild_id"@)) is Some) {
            seq!["guild_id"@] + (Seq::<Seq<char>>::empty())
        } else if !(read_opt_text(v.member("channel_id"@)) is Some) {
            seq!["channel_id"@] + (Seq::<Seq<char>>::empty())
        } else if !(read_text(v.member("user_id"@)) is Some) {
            seq!["user_id"@] + (Seq::<Seq<char>>::empty())
        } else if !(read_opt_unimplemented(v.member("member"@)) is Some) {
            seq!["member"@] + (Seq::<Seq<char>>::empty())
        } else if !(read_text(v.member("session_id"@)) is Some) {
            seq!["session_id"@] + (Seq::<Seq<char>>::empty())
        } else if !(read_bool(v.member("deaf"@)) is Some) {
            seq!["deaf"@] + (Seq::<Seq<char>>::empty())
        } else if !(read_bool(v.member("mute"@)) is Some) {
            seq!["mute"@] + (Seq::<Seq<char>>::empty())
        } else if !(read_bool(v.member("self_deaf"@)) is Some) {
            seq!["self_deaf"@] + (Seq::<Seq<char>>::empty())
        } else if !(read_bool(v.member("self_mute"@)) is Some) {
            seq!["self_mute"@] + (Seq::<Seq<char>>::empty())
        } else if !(read_opt_bool(v.member("self_stream"@)) is Some) {
            seq!["self_stream"@] + (Seq::<Seq<char>>::empty())
        } else if !(read_bool(v.member("self_video"@)) is Some) {
            seq!["self_video"@] + (Seq::<Seq<char>>::empty())
        } else if !(read_bool(v.member("suppress"@)) is Some) {
            seq!["suppress"@] + (Seq::<Seq<char>>::empty())
        } else if !(read_opt_timestamp(v.member("request_to_speak_timestamp"@)) is Some) {
            seq!["request_to_speak_timestamp"@] + (Seq::<Seq<char>>::empty())
        } else {
            Seq::empty()
        }
    }

    /// `v` is exactly the object this value is written as: these members,
    /// in this order, with these values.
    pub open spec fn written(self, v: JsonValue) -> bool {
        &&& has_keys(v, push_if(Seq::<Seq<char>>::empty().push("guild_id"@).push("channel_id"@).push("user_id"@), self.member is Some, "member"@).push("session_id"@).push("deaf"@).push("mute"@).push("self_deaf"@).push("self_mute"@).push("self_stream"@).push("self_video"@).push("suppress"@).push("request_to_speak_timestamp"@))
        &&& is_opt_text(v.member("guild_id"@)->0, self.guild_id)
        &&& is_opt_text(v.member("channel_id"@)->0, self.channel_id)
        &&& v.member("user_id"@)->0 == JsonValue::Text(self.user_id)
        &&& (self.member matches Some(u) ==> v.member("member"@)->0 == u.0)
        &&& v.member("session_id"@)->0 == JsonValue::Text(self.session_id)
        &&& v.member("deaf"@)->0 == JsonValue::Bool(self.deaf)
        &&& v.member("mute"@)->0 == JsonValue::Bool(self.mute)
        &&& v.member("self_deaf"@)->0 == JsonValue::Bool(self.self_deaf)
        &&& v.member("self_mute"@)->0 == JsonValue::Bool(self.self_mute)
        &&& is_opt_bool(v.member("self_stream"@)->0, self.self_stream)
        &&& v.member("self_video"@)->0 == JsonValue::Bool(self.self_video)
        &&& v.member("suppress"@)->0 == JsonValue::Bool(self.suppress)
        &&& timestamp_written(self.request_to_speak_timestamp, v.member("request_to_speak_timestamp"@)->0)
    }

    pub fn from_json(v: JsonValue) -> (r: Result<VoiceState, FieldError>)
        ensures
            r is Ok == VoiceState::accepts(v),
            r matches Ok(x) ==> VoiceState::reads(v, x),
            r matches Err(e) ==> e.spec_path() == VoiceState::fault_path(v),
    {
        let fields = match v {
            JsonValue::Object(f) => f,
            _ => return Err(FieldError::here("invalid type: expected an object")),
        };
        proof {
            reveal_strlit("guild_id");
            reveal_strlit("channel_id");
            reveal_strlit("user_id");
            reveal_strlit("member");
            reveal_strlit("session_id");
            reveal_strlit("deaf");
            reveal_strlit("mute");
            reveal_strlit("self_deaf");
            reveal_strlit("self_mute");
            reveal_strlit("self_stream");
            reveal_strlit("self_video");
            reveal_strlit("suppress");
            reveal_strlit("request_to_speak_timestamp");
            assert("guild_id"@.len() == 8);
            assert("channel_id"@.len() == 10);
            assert("user_id"@.len() == 7);
            assert("member"@.len() == 6);
            assert("session_id"@.len() == 10);
            assert("deaf"@.len() == 4);
            assert("mute"@.len() == 4);
            assert("self_deaf"@.len() == 9);
            assert("self_mute"@.len() == 9);
            assert("self_stream"@.len() == 11);
            assert("self_video"@.len() == 10);
            assert("suppress"@.len() == 8);
            assert("request_to_speak_timestamp"@.len() == 26);
            assert("guild_id"@[0] == 'g' && "suppress"@[0] == 's');
            assert("channel_id"@[0] == 'c' && "session_id"@[0] == 's');
            assert("channel_id"@[0] == 'c' && "self_video"@[0] == 's');
            assert("session_id"@[2] == 's' && "self_video"@[2] == 'l');
            assert("deaf"@[0] == 'd' && "mute"@[0] == 'm');
            assert("self_deaf"@[5] == 'd' && "self_mute"@[5] == 'm');
        }
        let keys = vec!["guild_id", "channel_id", "user_id", "member", "session_id", "deaf", "mute", "self_deaf", "self_mute", "self_stream", "self_video", "suppress", "request_to_speak_timestamp"];
        let mut m = take_members(fields, &keys);
        let guild_id = match take_opt_text(m.remove(0)) {
            Some(x) => x,
            None => return Err(FieldError::at("guild_id", "expected a string or null")),
        };
        let channel_id = match take_opt_text(m.remove(0)) {
            Some(x) => x,
            None => return Err(FieldError::at("channel_id", "expected a string or null")),
        };
        let user_id = match take_text(m.remove(0)) {
            Some(x) => x,
            None => return Err(FieldError::at("user_id", "expected a string")),
        };
        let member = match take_opt_unimplemented(m.remove(0)) {
            Ok(x) => x,
            Err(e) => return Err(e.within("member")),
        };
        let session_id = match take_text(m.remove(0)) {
            Some(x) => x,
            None => return Err(FieldError::at("session_id", "expected a string")),
        };
        let deaf = match take_bool(&m.remove(0)) {
            Some(x) => x,
            None => return Err(FieldError::at("deaf", "expected a boolean")),
        };
        let mute = match take_bool(&m.remove(0)) {
            Some(x) => x,
            None => return Err(FieldError::at("mute", "expected a boolean")),
        };
        let self_deaf = match take_bool(&m.remove(0)) {
            Some(x) => x,
            None => return Err(FieldError::at("self_deaf", "expected a boolean")),
        };
        let self_mute = match take_bool(&m.remove(0)) {
            Some(x) => x,
            None => return Err(FieldError::at("self_mute", "expected a boolean")),
        };
        let self_stream = match take_opt_bool(&m.remove(0)) {
            Some(x) => x,
            None => return Err(FieldError::at("self_stream", "expected a boolean or null")),
        };
        let self_video = match take_bool(&m.remove(0)) {
            Some(x) => x,
            None => return Err(FieldError::at("self_video", "expected a boolean")),
        };
        let suppress = match take_bool(&m.remove(0)) {
            Some(x) => x,
            None => return Err(FieldError::at("suppress", "expected a boolean")),
        };
        let request_to_speak_timestamp = match take_opt_timestamp(m.remove(0)) {
            Ok(x) => x,
            Err(e) => return Err(e.within("request_to_speak_timestamp")),
        };
        Ok(VoiceState { guild_id, channel_id, user_id, member, session_id, deaf, mute, self_deaf, self_mute, self_stream, self_video, suppress, request_to_speak_timestamp })
    }

    pub fn take_member(v: Option<JsonValue>) -> (r: Result<VoiceState, FieldError>)
        ensures
            r is Ok == (v matches Some(x) && VoiceState::accepts(x)),
            r matches Ok(y) ==> (v matches Some(x) && VoiceState::reads(x, y)),
            r matches Err(e) ==> e.spec_path() == match v {
                Some(x) => VoiceState::fault_path(x),
                None => Seq::<Seq<char>>::empty(),
            },
    {
        match v {
            Some(x) => VoiceState::from_json(x),
            None => Err(FieldError::here("missing field")),
        }
    }

    pub fn to_json(self) -> (r: JsonValue)
        ensures
            VoiceState::reads(r, self),
            VoiceState::written(self, r),
    {
        proof {
            reveal_strlit("guild_id");
            reveal_strlit("channel_id");
            reveal_strlit("user_id");
            reveal_strlit("member");
            reveal_strlit("session_id");
            reveal_strlit("deaf");
            reveal_strlit("mute");
            reveal_strlit("self_deaf");
            reveal_strlit("self_mute");
            reveal_strlit("self_stream");
            reveal_strlit("self_video");
            reveal_strlit("suppress");
            reveal_strlit("request_to_speak_timestamp");
            assert("guild_id"@.len() == 8);
            assert("channel_id"@.len() == 10);
            assert("user_id"@.len() == 7);
            assert("member"@.len() == 6);
            assert("session_id"@.len() == 10);
            assert("deaf"@.len() == 4);
            assert("mute"@.len() == 4);
            assert("self_deaf"@.len() == 9);
            assert("self_mute"@.len() == 9);
            assert("self_stream"@.len() == 11);
            assert("self_video"@.len() == 10);
            assert("suppress"@.len() == 8);
            assert("request_to_speak_timestamp"@.len() == 26);
            assert("guild_id"@[0] == 'g' && "suppress"@[0] == 's');
            assert("channel_id"@[0] == 'c' && "session_id"@[0] == 's');
            assert("channel_id"@[0] == 'c' && "self_video"@[0] == 's');
            assert("session_id"@[2] == 's' && "self_video"@[2] == 'l');
            assert("deaf"@[0] == 'd' && "mute"@[0] == 'm');
            assert("self_deaf"@[5] == 'd' && "self_mute"@[5] == 'm');
        }
        let mut f: Vec<(String, JsonValue)> = Vec::new();
        assert(keys_of(f@) =~= Seq::<Seq<char>>::empty());
        put(&mut f, "guild_id", opt_text(self.guild_id));
        put(&mut f, "channel_id", opt_text(self.channel_id));
        put(&mut f, "user_id", JsonValue::Text(self.user_id));
        write_opt_unimplemented(&mut f, "member", self.member);
        put(&mut f, "session_id", JsonValue::Text(self.session_id));
        put(&mut f, "deaf", JsonValue::Bool(self.deaf));
        put(&mut f, "mute", JsonValue::Bool(self.mute));
        put(&mut f, "self_deaf", JsonValue::Bool(self.self_deaf));
        put(&mut f, "self_mute", JsonValue::Bool(self.self_mute));
        put(&mut f, "self_stream", opt_bool(self.self_stream));
        put(&mut f, "self_video", JsonValue::Bool(self.self_video));
        put(&mut f, "suppress", JsonValue::Bool(self.suppress));
        write_opt_timestamp(&mut f, "request_to_speak_timestamp", self.request_to_speak_timestamp);
        JsonValue::Object(f)
    }
}

impl UnavailableApplication {
    /// What an object reads as, where it has the shape of this type.
    pub open spec fn read(v: JsonValue) -> Option<UnavailableApplication> {
        if v is Object && read_text(v.member("id"@)) is Some
            && read_app_flags(v.member("flags"@)) is Some {
            Some(UnavailableApplication {
                id: read_text(v.member("id"@))->0,
                flags: read_app_flags(v.member("flags"@))->0,
            })
        } else {
            None
        }
    }

    pub open spec fn read_member(v: Option<JsonValue>) -> Option<UnavailableApplication> {
        match v {
            Some(x) => UnavailableApplication::read(x),
            None => None,
        }
    }


    /// Where an object that does not read as this type is at fault: the
    /// names from this object inward; empty where it is not an object.
    pub open spec fn fault_path(v: JsonValue) -> Seq<Seq<char>> {
        if !(v is Object) {
            Seq::empty()
        } else if !(read_text(v.member("id"@)) is Some) {
            seq!["id"@] + (Seq::<Seq<char>>::empty())
        } else if !(read_app_flags(v.member("flags"@)) is Some) {
            seq!["flags"@] + (Seq::<Seq<char>>::empty())
        } else {
            Seq::empty()
        }
    }

    /// `v` is exactly the object this value is written as: these members,
    /// in this order, with these values.
    pub open spec fn written(self, v: JsonValue) -> bool {
        &&& has_keys(v, Seq::<Seq<char>>::empty().push("id"@).push("flags"@))
        &&& v.member("id"@)->0 == JsonValue::Text(self.id)
        &&& is_number(v.member("flags"@)->0, self.flags@)
    }

    pub fn from_json(v: JsonValue) -> (r: Result<UnavailableApplication, FieldError>)
        ensures
            r is Ok == (UnavailableApplication::read(v) is Some),
            r matches Ok(x) ==> UnavailableApplication::read(v) == Some(x),
            r matches Err(e) ==> e.spec_path() == UnavailableApplication::fault_path(v),
    {
        let fields = match v {
            JsonValue::Object(f) => f,
            _ => return Err(FieldError::here("invalid type: expected an object")),
        };
        proof {
            reveal_strlit("id");
            reveal_strlit("flags");
            assert("id"@.len() == 2);
            assert("flags"@.len() == 5);
        }
        let keys = vec!["id", "flags"];
        let mut m = take_members(fields, &keys);
        let id = match take_text(m.remove(0)) {
            Some(x) => x,
            None => return Err(FieldError::at("id", "expected a string")),
        };
        let flags = match take_app_flags(m.remove(0)) {
            Ok(x) => x,
            Err(e) => return Err(e.within("flags")),
        };
        Ok(UnavailableApplication { id, flags })
    }

    pub fn take_member(v: Option<JsonValue>) -> (r: Result<UnavailableApplication, FieldError>)
        ensures
            r is Ok == (UnavailableApplication::read_member(v) is Some),
            r matches Ok(x) ==> UnavailableApplication::read_member(v) == Some(x),
            r matches Err(e) ==> e.spec_path() == match v {
                Some(x) => UnavailableApplication::fault_path(x),
                None => Seq::<Seq<char>>::empty(),
            },
    {
        match v {
            Some(x) => UnavailableApplication::from_json(x),
            None => Err(FieldError::here("missing field")),
        }
    }


    /// The object this value is written as.
    pub fn to_json(self) -> (r: JsonValue)
        ensures
            UnavailableApplication::read(r) == Some(self),
            UnavailableApplication::written(self, r),
            r is Object,
    {
        proof {
            reveal_strlit("id");
            reveal_strlit("flags");
            assert("id"@.len() == 2);
            assert("flags"@.len() == 5);
        }
        let mut f: Vec<(String, JsonValue)> = Vec::new();
        assert(keys_of(f@) =~= Seq::<Seq<char>>::empty());
        put(&mut f, "id", JsonValue::Text(self.id));
        write_app_flags(&mut f, "flags", self.flags);
        JsonValue::Object(f)
    }

}

impl Ready {
    /// What an object reads as, where it has the shape of this type.
    pub open spec fn read(v: JsonValue) -> Option<Ready> {
        if v is Object && read_u64(v.member("v"@)) is Some
            && read_unimplemented(v.member("user"@)) is Some
            && read_unimplemented(v.member("guilds"@)) is Some
            && read_text(v.member("session_id"@)) is Some
            && read_text(v.member("resume_gateway_url"@)) is Some
            && read_opt_pair(v.member("shard"@)) is Some
            && UnavailableApplication::read_member(v.member("application"@)) is Some {
            Some(Ready {
                v: read_u64(v.member("v"@))->0,
                user: read_unimplemented(v.member("user"@))->0,
                guilds: read_unimplemented(v.member("guilds"@))->0,
                session_id: read_text(v.member("session_id"@))->0,
                resume_gateway_url: read_text(v.member("resume_gateway_url"@))->0,
                shard: read_opt_pair(v.member("shard"@))->0,
                application: UnavailableApplication::read_member(v.member("application"@))->0,
            })
        } else {
            None
        }
    }

    pub open spec fn read_member(v: Option<JsonValue>) -> Option<Ready> {
        match v {
            Some(x) => Ready::read(x),
            None => None,
        }
    }


    /// Where an object that does not read as this type is at fault: the
    /// names from this object inward; empty where it is not an object.
    pub open spec fn fault_path(v: JsonValue) -> Seq<Seq<char>> {
        if !(v is Object) {
            Seq::empty()
        } else if !(read_u64(v.member("v"@)) is Some) {
            seq!["v"@] + (Seq::<Seq<char>>::empty())
        } else if !(read_unimplemented(v.member("user"@)) is Some) {
            seq!["user"@] + (Seq::<Seq<char>>::empty())
        } else if !(read_unimplemented(v.member("guilds"@)) is Some) {
            seq!["guilds"@] + (Seq::<Seq<char>>::empty())
        } else if !(read_text(v.member("session_id"@)) is Some) {
            seq!["session_id"@] + (Seq::<Seq<char>>::empty())
        } else if !(read_text(v.member("resume_gateway_url"@)) is Some) {
            seq!["resume_gateway_url"@] + (Seq::<Seq<char>>::empty())
        } else if !(read_opt_pair(v.member("shard"@)) is Some) {
            seq!["shard"@] + (Seq::<Seq<char>>::empty())
        } else if !(UnavailableApplication::read_member(v.member("application"@)) is Some) {
            seq!["application"@] + (match v.member("application"@) { Some(x) => UnavailableApplication::fault_path(x), None => Seq::<Seq<char>>::empty() })
        } else {
            Seq::empty()
        }
    }

    /// `v` is exactly the object this value is written as: these members,
    /// in this order, with these values.
    pub open spec fn written(self, v: JsonValue) -> bool {
        &&& has_keys(v, Seq::<Seq<char>>::empty().push("v"@).push("user"@).push("guilds"@).push("session_id"@).push("resume_gateway_url"@).push("shard"@).push("application"@))
        &&& is_number(v.member("v"@)->0, self.v)
        &&& v.member("user"@)->0 == self.user.0
        &&& v.member("guilds"@)->0 == self.guilds.0
        &&& v.member("session_id"@)->0 == JsonValue::Text(self.session_id)
        &&& v.member("resume_gateway_url"@)->0 == JsonValue::Text(self.resume_gateway_url)
        &&& is_opt_pair(v.member("shard"@)->0, self.shard)
        &&& UnavailableApplication::written(self.application, v.member("application"@)->0)
    }

    pub fn from_json(v: JsonValue) -> (r: Result<Ready, FieldError>)
        ensures
            r is Ok == (Ready::read(v) is Some),
            r matches Ok(x) ==> Ready::read(v) == Some(x),
            r matches Err(e) ==> e.spec_path() == Ready::fault_path(v),
    {
        let fields = match v {
            JsonValue::Object(f) => f,
            _ => return Err(FieldError::here("invalid type: expected an object")),
        };
        proof {
            reveal_strlit("v");
            reveal_strlit("user");
            reveal_strlit("guilds");
            reveal_strlit("session_id");
            reveal_strlit("resume_gateway_url");
            reveal_strlit("shard");
            reveal_strlit("application");
            assert("v"@.len() == 1);
            assert("user"@.len() == 4);
            assert("guilds"@.len() == 6);
            assert("session_id"@.len() == 10);
            assert("resume_gateway_url"@.len() == 18);
            assert("shard"@.len() == 5);
            assert("application"@.len() == 11);
        }
        let keys = vec!["v", "user", "guilds", "session_id", "resume_gateway_url", "shard", "application"];
        let mut m = take_members(fields, &keys);
        let v = match take_u64(&m.remove(0)) {
            Some(x) => x,
            None => return Err(FieldError::at("v", "expected an unsigned integer")),
        };
        let user = match take_unimplemented(m.remove(0)) {
            Ok(x) => x,
            Err(e) => return Err(e.within("user")),
        };
        let guilds = match take_unimplemented(m.remove(0)) {
            Ok(x) => x,
            Err(e) => return Err(e.within("guilds")),
        };
        let session_id = match take_text(m.remove(0)) {
            Some(x) => x,
            None => return Err(FieldError::at("session_id", "expected a string")),
        };
        let resume_gateway_url = match take_text(m.remove(0)) {
            Some(x) => x,
            None => return Err(FieldError::at("resume_gateway_url", "expected a string")),
        };
        let shard = match take_opt_pair(&m.remove(0)) {
            Some(x) => x,
            None => return Err(FieldError::at("shard", "expected a pair of unsigned integers or null")),
        };
        let application = match UnavailableApplication::take_member(m.remove(0)) {
            Ok(x) => x,
            Err(e) => return Err(e.within("application")),
        };
        Ok(Ready { v, user, guilds, session_id, resume_gateway_url, shard, application })
    }

    pub fn take_member(v: Option<JsonValue>) -> (r: Result<Ready, FieldError>)
        ensures
            r is Ok == (Ready::read_member(v) is Some),
            r matches Ok(x) ==> Ready::read_member(v) == Some(x),
            r matches Err(e) ==> e.spec_path() == match v {
                Some(x) => Ready::fault_path(x),
                None => Seq::<Seq<char>>::empty(),
            },
    {
        match v {
            Some(x) => Ready::from_json(x),
            None => Err(FieldError::here("missing field")),
        }
    }


    /// The object this value is written as.
    pub fn to_json(self) -> (r: JsonValue)
        ensures
            Ready::read(r) == Some(self),
            Ready::written(self, r),
            r is Object,
    {
        proof {
            reveal_strlit("v");
            reveal_strlit("user");
            reveal_strlit("guilds");
            reveal_strlit("session_id");
            reveal_strlit("resume_gateway_url");
            reveal_strlit("shard");
            reveal_strlit("application");
            assert("v"@.len() == 1);
            assert("user"@.len() == 4);
            assert("guilds"@.len() == 6);
            assert("session_id"@.len() == 10);
            assert("resume_gateway_url"@.len() == 18);
            assert("shard"@.len() == 5);
            assert("application"@.len() == 11);
        }
        let mut f: Vec<(String, JsonValue)> = Vec::new();
        assert(keys_of(f@) =~= Seq::<Seq<char>>::empty());
        put(&mut f, "v", number(self.v));
        write_unimplemented(&mut f, "user", self.user);
        write_unimplemented(&mut f, "guilds", self.guilds);
        put(&mut f, "session_id", JsonValue::Text(self.session_id));
        put(&mut f, "resume_gateway_url", JsonValue::Text(self.resume_gateway_url));
        put(&mut f, "shard", opt_pair(self.shard));
        put(&mut f, "application", self.application.to_json());
        JsonValue::Object(f)
    }

}

/// An event that the gateway dispatches. The ready event and voice state
/// updates are read into their types; any other event keeps its name and its
/// payload as they came.
#[derive(Debug)]
pub enum Event {
    Ready(Ready),
    VoiceStateUpdate(VoiceState),
    Other(String, Unimplemented),
}

impl Event {
    /// The name of the event, the member `t` of its envelope.
    pub open spec fn spec_name(self) -> Seq<char> {
        match self {
            Event::Ready(_) => "READY"@,
            Event::VoiceStateUpdate(_) => "VOICE_STATE_UPDATE"@,
            Event::Other(name, _) => name@,
        }
    }

    /// An event of another kind never carries the name of one that is read
    /// into a type.
    pub open spec fn well_named(self) -> bool {
        self matches Event::Other(name, _) ==> name@ != "READY"@ && name@ != "VOICE_STATE_UPDATE"@
    }

    /// Whether the payload `d` of an event named `t` can be read.
    pub open spec fn accepts(t: Seq<char>, d: Option<JsonValue>) -> bool {
        if t == "READY"@ {
            Ready::read_member(d) is Some
        } else if t == "VOICE_STATE_UPDATE"@ {
            d matches Some(x) && VoiceState::accepts(x)
        } else {
            true
        }
    }

    /// `e` is what the payload `d` of an event named `t` reads as; an absent
    /// payload of another kind of event is kept as `null`.
    pub open spec fn reads(t: String, d: Option<JsonValue>, e: Event) -> bool {
        if t@ == "READY"@ {
            e matches Event::Ready(r) && Ready::read_member(d) == Some(r)
        } else if t@ == "VOICE_STATE_UPDATE"@ {
            e matches Event::VoiceStateUpdate(x) && (d matches Some(j) && VoiceState::reads(j, x))
        } else {
            e == Event::Other(
                t,
                Unimplemented(
                    match d {
                        Some(j) => j,
                        None => JsonValue::Null,
                    },
                ),
            )
        }
    }

    /// Where the payload `d` of an event named `t` is at fault.
    pub open spec fn fault_path(t: Seq<char>, d: Option<JsonValue>) -> Seq<Seq<char>> {
        match d {
            Some(x) => if t == "READY"@ {
                Ready::fault_path(x)
            } else if t == "VOICE_STATE_UPDATE"@ {
                VoiceState::fault_path(x)
            } else {
                Seq::empty()
            },
            None => Seq::empty(),
        }
    }

    /// `v` is exactly the payload this event is written as.
    pub open spec fn written(self, v: JsonValue) -> bool {
        match self {
            Event::Ready(x) => Ready::written(x, v),
            Event::VoiceStateUpdate(x) => VoiceState::written(x, v),
            Event::Other(_, d) => v == d.0,
        }
    }

    /// Reads the payload `d` of an event named `t`.
    pub fn from_json(t: String, d: Option<JsonValue>) -> (r: Result<Event, FieldError>)
        ensures
            r is Ok == Event::accepts(t@, d),
            r matches Err(e) ==> e.spec_path() == Event::fault_path(t@, d),
            r matches Ok(e) ==> Event::reads(t, d, e) && e.spec_name() == t@ && e.well_named(),
    {
        proof {
            reveal_strlit("READY");
            reveal_strlit("VOICE_STATE_UPDATE");
            assert("READY"@.len() == 5 && "VOICE_STATE_UPDATE"@.len() == 18);
        }
        if str_eq(t.as_str(), "READY") {
            match Ready::take_member(d) {
                Ok(x) => Ok(Event::Ready(x)),
                Err(e) => Err(e),
            }
        } else if str_eq(t.as_str(), "VOICE_STATE_UPDATE") {
            match VoiceState::take_member(d) {
                Ok(x) => Ok(Event::VoiceStateUpdate(x)),
                Err(e) => Err(e),
            }
        } else {
            match d {
                Some(j) => Ok(Event::Other(t, Unimplemented(j))),
                None => Ok(Event::Other(t, Unimplemented(JsonValue::Null))),
            }
        }
    }

    /// The name and the payload this event is written as.
    pub fn into_json(self) -> (r: (String, JsonValue))
        ensures
            r.0@ == self.spec_name(),
            self.written(r.1),
            self matches Event::Other(n, _) ==> r.0 == n,
            self.well_named() ==> Event::accepts(r.0@, Some(r.1)) && Event::reads(r.0, Some(r.1), self),
    {
        proof {
            reveal_strlit("READY");
            reveal_strlit("VOICE_STATE_UPDATE");
            assert("READY"@.len() == 5 && "VOICE_STATE_UPDATE"@.len() == 18);
        }
        match self {
            Event::Ready(x) => ("READY".to_owned(), x.to_json()),
            Event::VoiceStateUpdate(x) => ("VOICE_STATE_UPDATE".to_owned(), x.to_json()),
            Event::Other(name, data) => (name, data.0),
        }
    }
}

} // verus!
