use vstd::prelude::*;
use serde_json::Value;
use crate::text::{push_signed, signed_decimal};
use crate::textmatch::{has_prefix, starts_with_text, text_eq};

verus! {

#[verifier::external_type_specification]
#[verifier::external_body]
pub struct ExValue(serde_json::Value);

/// The JSON document that serde_json reads from `text`, if it is one.
pub uninterp spec fn json_parse(text: Seq<char>) -> Option<Value>;

/// The member `key` of a JSON object; `None` for a missing key or a value
/// that is not an object.
pub uninterp spec fn json_member(v: Value, key: Seq<char>) -> Option<Value>;

/// The text of a JSON string; `None` for a value that is not a string.
pub uninterp spec fn json_text(v: Value) -> Option<Seq<char>>;

/// Relies on `serde_json::from_str` into a `Value`, whose outcome depends on
/// the text alone.
#[verifier::external_body]
fn parse_json(text: &str) -> (r: Option<Value>)
    ensures
        r == json_parse(text@),
{
    serde_json::from_str::<Value>(text).ok()
}

/// Relies on `Value::get` with a string key: a lookup in an object.
#[verifier::external_body]
fn json_get(v: &Value, key: &str) -> (r: Option<Value>)
    ensures
        r == json_member(*v, key@),
{
    v.get(key).cloned()
}

/// Relies on `Value::as_str`: the text of a JSON string.
#[verifier::external_body]
fn json_as_str(v: &Value) -> (r: Option<String>)
    ensures
        r is Some == json_text(*v) is Some,
        r is Some ==> r->0@ == json_text(*v)->0,
{
    v.as_str().map(|s| s.to_string())
}

/// The kinds of event that arrive on the channel.
#[derive(PartialEq, Eq, Structural, Clone, Copy, Debug)]
pub enum EventKind {
    TimerStarted,
    TimerStopped,
    TimerDeleted,
    SubscriptionSucceeded,
    ConnectionEstablished,
    Heartbeat,
    /// Another event of the channel protocol itself.
    SystemOther,
    Unknown,
}

/// The kind of an event from its name.
pub open spec fn event_kind(k: Seq<char>) -> EventKind {
    if k == "timer.started"@ {
        EventKind::TimerStarted
    } else if k == "timer.stopped"@ {
        EventKind::TimerStopped
    } else if k == "timer.deleted"@ {
        EventKind::TimerDeleted
    } else if k == "pusher:subscription_succeeded"@ {
        EventKind::SubscriptionSucceeded
    } else if k == "pusher:connection_established"@ {
        EventKind::ConnectionEstablished
    } else if k == "pusher:pong"@ || k == "pusher:ping"@ {
        EventKind::Heartbeat
    } else if has_prefix(k, "pusher:"@) {
        EventKind::SystemOther
    } else {
        EventKind::Unknown
    }
}

/// Classifies an event by its name.
pub fn classify_event(k: &str) -> (r: EventKind)
    ensures
        r == event_kind(k@),
{
    if text_eq(k, "timer.started") {
        EventKind::TimerStarted
    } else if text_eq(k, "timer.stopped") {
        EventKind::TimerStopped
    } else if text_eq(k, "timer.deleted") {
        EventKind::TimerDeleted
    } else if text_eq(k, "pusher:subscription_succeeded") {
        EventKind::SubscriptionSucceeded
    } else if text_eq(k, "pusher:connection_established") {
        EventKind::ConnectionEstablished
    } else if text_eq(k, "pusher:pong") || text_eq(k, "pusher:ping") {
        EventKind::Heartbeat
    } else if starts_with_text(k, "pusher:") {
        EventKind::SystemOther
    } else {
        EventKind::Unknown
    }
}

/// An event's payload: a JSON document encoded once more as a string, or
/// the document itself.
pub enum Payload {
    Encoded(String),
    Structured(Value),
}

/// The document a payload holds, decoding an encoded one.
pub open spec fn payload_document(p: Payload) -> Option<Value> {
    match p {
        Payload::Encoded(s) => json_parse(s@),
        Payload::Structured(v) => Some(v),
    }
}

/// The document that a `data` value holds: a string is decoded once more.
pub open spec fn data_document(d: Value) -> Option<Value> {
    match json_text(d) {
        Some(s) => json_parse(s),
        None => Some(d),
    }
}

/// The member `key` of the document in an optional `data` value.
pub open spec fn data_member(data: Option<Value>, key: Seq<char>) -> Option<Value> {
    match data {
        Some(d) => match data_document(d) {
            Some(doc) => json_member(doc, key),
            None => None,
        },
        None => None,
    }
}

/// Tells an encoded payload from a structured one by the value's shape.
pub fn payload_of(data: Value) -> (r: Payload)
    ensures
        payload_document(r) == data_document(data),
        json_text(data) is Some <==> r is Encoded,
{
    match json_as_str(&data) {
        Some(s) => Payload::Encoded(s),
        None => Payload::Structured(data),
    }
}

/// Decodes a payload to its document.
pub fn decode_payload(p: Payload) -> (r: Option<Value>)
    ensures
        r == payload_document(p),
{
    match p {
        Payload::Encoded(s) => parse_json(s.as_str()),
        Payload::Structured(v) => Some(v),
    }
}

/// Takes the member `key` of an optional `data` value's document.
pub fn data_field(data: Option<Value>, key: &str) -> (r: Option<Value>)
    ensures
        r == data_member(data, key@),
{
    match data {
        Some(d) => match decode_payload(payload_of(d)) {
            Some(doc) => json_get(&doc, key),
            None => None,
        },
        None => None,
    }
}

/// What the process does with one inbound event.
pub enum SyncAction {
    /// Forward `ws-timer-started` with the entry.
    EmitStarted(Value),
    /// Forward `ws-timer-stopped` with the entry.
    EmitStopped(Value),
    /// Forward `ws-timer-deleted` with the entry's identifier.
    EmitDeleted(Value),
    /// Log that the subscription was acknowledged.
    Subscribed,
    /// Log that the connection was established.
    ConnectionEstablished,
    /// A heartbeat: nothing to do.
    Heartbeat,
    /// Log an event of unknown kind, by name.
    LogUnknown(String),
    /// Drop the event.
    Ignore,
}

/// Whether `r` is what an event named `k` with `data` calls for.
pub open spec fn event_action(r: SyncAction, k: Seq<char>, data: Option<Value>) -> bool {
    match event_kind(k) {
        EventKind::TimerStarted => match data_member(data, "entry"@) {
            Some(e) => r == SyncAction::EmitStarted(e),
            None => r is Ignore,
        },
        EventKind::TimerStopped => match data_member(data, "entry"@) {
            Some(e) => r == SyncAction::EmitStopped(e),
            None => r is Ignore,
        },
        EventKind::TimerDeleted => match data_member(data, "entry_id"@) {
            Some(e) => r == SyncAction::EmitDeleted(e),
            None => r is Ignore,
        },
        EventKind::SubscriptionSucceeded => r is Subscribed,
        EventKind::ConnectionEstablished => r is ConnectionEstablished,
        EventKind::Heartbeat => r is Heartbeat,
        EventKind::SystemOther => r is Ignore,
        EventKind::Unknown => r is LogUnknown && r->LogUnknown_0@ == k,
    }
}

/// Decides what to do with an event named `k` whose `data` member is `data`.
pub fn decide_event(k: &str, data: Option<Value>) -> (r: SyncAction)
    ensures
        event_action(r, k@, data),
{
    match classify_event(k) {
        EventKind::TimerStarted => match data_field(data, "entry") {
            Some(e) => SyncAction::EmitStarted(e),
            None => SyncAction::Ignore,
        },
        EventKind::TimerStopped => match data_field(data, "entry") {
            Some(e) => SyncAction::EmitStopped(e),
            None => SyncAction::Ignore,
        },
        EventKind::TimerDeleted => match data_field(data, "entry_id") {
            Some(e) => SyncAction::EmitDeleted(e),
            None => SyncAction::Ignore,
        },
        EventKind::SubscriptionSucceeded => SyncAction::Subscribed,
        EventKind::ConnectionEstablished => SyncAction::ConnectionEstablished,
        EventKind::Heartbeat => SyncAction::Heartbeat,
        EventKind::SystemOther => SyncAction::Ignore,
        EventKind::Unknown => SyncAction::LogUnknown(k.to_string()),
    }
}

/// Whether `r` is what the text frame `text` calls for: text that is not a
/// JSON envelope with a string `event` member is dropped.
pub open spec fn message_action(r: SyncAction, text: Seq<char>) -> bool {
    match json_parse(text) {
        Some(env) => match json_member(env, "event"@) {
            Some(ev) => match json_text(ev) {
                Some(k) => event_action(r, k, json_member(env, "data"@)),
                None => r is Ignore,
            },
            None => r is Ignore,
        },
        None => r is Ignore,
    }
}

/// Decodes one text frame of the event stream and decides what to do.
pub fn handle_websocket_message(text: &str) -> (r: SyncAction)
    ensures
        message_action(r, text@),
{
    let env = match parse_json(text) {
        Some(v) => v,
        None => { return SyncAction::Ignore; },
    };
    let ev = match json_get(&env, "event") {
        Some(v) => v,
        None => { return SyncAction::Ignore; },
    };
    let k = match json_as_str(&ev) {
        Some(s) => s,
        None => { return SyncAction::Ignore; },
    };
    decide_event(k.as_str(), json_get(&env, "data"))
}

/// Seconds to wait before connecting again after a failure or a closed
/// session.
pub const RECONNECT_DELAY_SECS: u64 = 5;

/// The subscribe request for the timer channel of `user_id`.
pub open spec fn subscribe_text(user_id: int) -> Seq<char> {
    "{\"event\":\"pusher:subscribe\",\"data\":{\"channel\":\"timers."@ + signed_decimal(user_id)
        + "\"}}"@
}

/// Builds the subscribe request for the timer channel of `user_id`.
pub fn subscribe_message(user_id: i32) -> (r: String)
    ensures
        r@ == subscribe_text(user_id as int),
{
    let mut s = String::from_str("{\"event\":\"pusher:subscribe\",\"data\":{\"channel\":\"timers.");
    let neg = user_id < 0;
    let mag: u64 = if neg { (-(user_id as i64)) as u64 } else { user_id as u64 };
    push_signed(&mut s, neg, mag);
    s.append("\"}}");
    s
}

/// The state of the connection to the event stream.
#[derive(PartialEq, Eq, Structural, Clone, Copy, Debug)]
pub enum LinkState {
    Disconnected,
    /// Connected; the subscribe request is on its way.
    Subscribing,
    Connected,
    /// Shut down for good.
    Stopped,
}

/// What happened to the connection.
pub enum LinkEvent {
    /// Time to connect.
    Start,
    ConnectFailed,
    Opened,
    SubscribeSent,
    SubscribeFailed,
    /// A text frame arrived.
    Text(String),
    /// A ping frame arrived with this payload.
    Ping(Vec<u8>),
    /// Another frame that needs no answer.
    OtherFrame,
    Close,
    StreamError,
    /// The stream ended without a close frame.
    StreamEnded,
    /// The surrounding process is shutting down.
    Shutdown,
}

/// What to do next.
pub enum LinkAction {
    Connect,
    /// Send this subscribe request.
    Subscribe(String),
    /// Act on a decoded event, then read on.
    Dispatch(SyncAction),
    /// Answer a ping with a pong of the same payload, then read on.
    Pong(Vec<u8>),
    /// Read the next frame.
    Read,
    /// Wait this many seconds, then connect again.
    WaitThenRetry(u64),
    /// Stop for good.
    Halt,
    /// The event does not belong to this state: nothing to do.
    Nothing,
}

/// The state after `e` arrives in state `s`.
pub open spec fn next_link_state(s: LinkState, e: LinkEvent) -> LinkState {
    match (s, e) {
        (_, LinkEvent::Shutdown) => LinkState::Stopped,
        (LinkState::Stopped, _) => LinkState::Stopped,
        (LinkState::Disconnected, LinkEvent::Opened) => LinkState::Subscribing,
        (LinkState::Subscribing, LinkEvent::SubscribeSent) => LinkState::Connected,
        (LinkState::Subscribing, LinkEvent::SubscribeFailed) => LinkState::Disconnected,
        (LinkState::Connected, LinkEvent::Close) => LinkState::Disconnected,
        (LinkState::Connected, LinkEvent::StreamError) => LinkState::Disconnected,
        (LinkState::Connected, LinkEvent::StreamEnded) => LinkState::Disconnected,
        (s, _) => s,
    }
}

/// Whether `a` is the action for `e` arriving in state `s`, for the channel
/// of `user_id`.
pub open spec fn link_action(s: LinkState, e: LinkEvent, user_id: int, a: LinkAction) -> bool {
    match (s, e) {
        (_, LinkEvent::Shutdown) => a is Halt,
        (LinkState::Stopped, _) => a is Halt,
        (LinkState::Disconnected, LinkEvent::Start) => a is Connect,
        (LinkState::Disconnected, LinkEvent::ConnectFailed) => a == LinkAction::WaitThenRetry(RECONNECT_DELAY_SECS),
        (LinkState::Disconnected, LinkEvent::Opened) => a is Subscribe && a->Subscribe_0@ == subscribe_text(user_id),
        (LinkState::Subscribing, LinkEvent::SubscribeSent) => a is Read,
        (LinkState::Subscribing, LinkEvent::SubscribeFailed) => a == LinkAction::WaitThenRetry(RECONNECT_DELAY_SECS),
        (LinkState::Connected, LinkEvent::Text(t)) => a is Dispatch && message_action(a->Dispatch_0, t@),
        (LinkState::Connected, LinkEvent::Ping(d)) => a is Pong && a->Pong_0@ == d@,
        (LinkState::Connected, LinkEvent::OtherFrame) => a is Read,
        (LinkState::Connected, LinkEvent::Close) => a == LinkAction::WaitThenRetry(RECONNECT_DELAY_SECS),
        (LinkState::Connected, LinkEvent::StreamError) => a == LinkAction::WaitThenRetry(RECONNECT_DELAY_SECS),
        (LinkState::Connected, LinkEvent::StreamEnded) => a == LinkAction::WaitThenRetry(RECONNECT_DELAY_SECS),
        _ => a is Nothing,
    }
}

/// One step of the connection loop: the state after `e` and what to do.
/// Failures and closed sessions always lead to a fixed wait and a new
/// attempt; only a shutdown ends the loop.
pub fn link_step(s: LinkState, e: LinkEvent, user_id: i32) -> (r: (LinkState, LinkAction))
    ensures
        r.0 == next_link_state(s, e),
        link_action(s, e, user_id as int, r.1),
{
    match (s, e) {
        (_, LinkEvent::Shutdown) => (LinkState::Stopped, LinkAction::Halt),
        (LinkState::Stopped, _) => (LinkState::Stopped, LinkAction::Halt),
        (LinkState::Disconnected, LinkEvent::Start) => (LinkState::Disconnected, LinkAction::Connect),
        (LinkState::Disconnected, LinkEvent::ConnectFailed) => (
            LinkState::Disconnected,
            LinkAction::WaitThenRetry(RECONNECT_DELAY_SECS),
        ),
        (LinkState::Disconnected, LinkEvent::Opened) => (
            LinkState::Subscribing,
            LinkAction::Subscribe(subscribe_message(user_id)),
        ),
        (LinkState::Subscribing, LinkEvent::SubscribeSent) => (LinkState::Connected, LinkAction::Read),
        (LinkState::Subscribing, LinkEvent::SubscribeFailed) => (
            LinkState::Disconnected,
            LinkAction::WaitThenRetry(RECONNECT_DELAY_SECS),
        ),
        (LinkState::Connected, LinkEvent::Text(t)) => (
            LinkState::Connected,
            LinkAction::Dispatch(handle_websocket_message(t.as_str())),
        ),
        (LinkState::Connected, LinkEvent::Ping(d)) => (LinkState::Connected, LinkAction::Pong(d)),
        (LinkState::Connected, LinkEvent::OtherFrame) => (LinkState::Connected, LinkAction::Read),
        (LinkState::Connected, LinkEvent::Close) | (LinkState::Connected, LinkEvent::StreamError) | (
            LinkState::Connected,
            LinkEvent::StreamEnded,
        ) => (LinkState::Disconnected, LinkAction::WaitThenRetry(RECONNECT_DELAY_SECS)),
        (s, _) => (s, LinkAction::Nothing),
    }
}

/// A payload encoded as a JSON string and the same document sent as it is
/// yield the same member, and so the same action for a timer event.
pub proof fn lemma_encoded_payload_same_entry(
    encoded: Value,
    doc: Value,
    k: Seq<char>,
    key: Seq<char>,
    r1: SyncAction,
    r2: SyncAction,
)
    requires
        json_text(encoded) is Some,
        json_parse(json_text(encoded)->0) == Some(doc),
        json_text(doc) is None,
        event_kind(k) is TimerStarted || event_kind(k) is TimerStopped || event_kind(k) is TimerDeleted,
        event_action(r1, k, Some(encoded)),
        event_action(r2, k, Some(doc)),
    ensures
        data_member(Some(encoded), key) == data_member(Some(doc), key),
        r1 == r2,
{
}

} // verus!
