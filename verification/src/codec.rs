//! The wire form of the protocol: every message is one flat JSON object whose
//! member `message_type` holds the message's tag.

use crate::json;
use crate::json::{json_parse, json_render, json_view, Json};
use crate::messages::{
    Heartbeat, HeartbeatAck, LookupActor, LookupResult, Message, MessageView, RegisterActor,
    RegistrationFailed, RegistrationOk, UnregisterActor,
};
use crate::text::same;
use vstd::prelude::*;
use vstd::string::*;

verus! {

/// Why a text could not be read as a message.
#[derive(Debug, Clone, PartialEq, Eq)]
pub enum DecodeError {
    /// The text is no JSON document; holds the parser's message.
    Syntax(String),
    /// A member that the message needs is absent or of another type; holds its key.
    MissingField(String),
    /// `message_type` holds a tag that the protocol does not know; holds the tag.
    UnknownTag(String),
}

/// The model of a [`DecodeError`].
pub enum DecodeErrorView {
    Syntax(Seq<char>),
    MissingField(Seq<char>),
    UnknownTag(Seq<char>),
}

impl View for DecodeError {
    type V = DecodeErrorView;

    open spec fn view(&self) -> DecodeErrorView {
        match self {
            DecodeError::Syntax(message) => DecodeErrorView::Syntax(message@),
            DecodeError::MissingField(key) => DecodeErrorView::MissingField(key@),
            DecodeError::UnknownTag(tag) => DecodeErrorView::UnknownTag(tag@),
        }
    }
}

/// The text under `key`, if `json` is an object with a string there.
pub open spec fn text_member(json: Json, key: Seq<char>) -> Option<Seq<char>> {
    match json.member(key) {
        Some(member) => member.as_text(),
        None => None,
    }
}

/// The truth value under `key`, if `json` is an object with a boolean there.
pub open spec fn bool_member(json: Json, key: Seq<char>) -> Option<bool> {
    match json.member(key) {
        Some(member) => member.as_bool(),
        None => None,
    }
}

/// The number under `key`, if `json` is an object with an unsigned 64-bit integer there.
pub open spec fn u64_member(json: Json, key: Seq<char>) -> Option<u64> {
    match json.member(key) {
        Some(member) => member.as_u64(),
        None => None,
    }
}

/// A text member that must be there.
pub open spec fn required_text(json: Json, key: Seq<char>) -> Result<Seq<char>, DecodeErrorView> {
    match text_member(json, key) {
        Some(text) => Ok(text),
        None => Err(DecodeErrorView::MissingField(key)),
    }
}

/// A text member with a fallback.
pub open spec fn text_or(json: Json, key: Seq<char>, fallback: Seq<char>) -> Seq<char> {
    match text_member(json, key) {
        Some(text) => text,
        None => fallback,
    }
}

impl MessageView {
    /// The JSON object that carries the message.
    pub open spec fn to_json(self) -> Json {
        let head = Map::<Seq<char>, Json>::empty().insert(
            "message_type"@,
            Json::Text(self.tag()),
        );
        Json::Object(
            match self {
                MessageView::RegisterActor { manager_id, actor_name, actor_endpoint } => head.insert(
                    "manager_id"@,
                    Json::Text(manager_id),
                ).insert("actor_name"@, Json::Text(actor_name)).insert(
                    "actor_endpoint"@,
                    Json::Text(actor_endpoint),
                ),
                MessageView::UnregisterActor { actor_name } => head.insert(
                    "actor_name"@,
                    Json::Text(actor_name),
                ),
                MessageView::RegistrationOk { actor_name } => head.insert(
                    "actor_name"@,
                    Json::Text(actor_name),
                ),
                MessageView::RegistrationFailed { actor_name, reason } => head.insert(
                    "actor_name"@,
                    Json::Text(actor_name),
                ).insert("reason"@, Json::Text(reason)),
                MessageView::LookupActor { actor_name } => head.insert(
                    "actor_name"@,
                    Json::Text(actor_name),
                ),
                MessageView::LookupResult { actor_name, endpoint, online } => head.insert(
                    "actor_name"@,
                    Json::Text(actor_name),
                ).insert(
                    "endpoint"@,
                    match endpoint {
                        Some(address) => Json::Text(address),
                        None => Json::Null,
                    },
                ).insert("online"@, Json::Bool(online)),
                MessageView::Heartbeat { manager_id, timestamp_ms } => head.insert(
                    "manager_id"@,
                    Json::Text(manager_id),
                ).insert("timestamp_ms"@, Json::Integer(timestamp_ms as int)),
                MessageView::HeartbeatAck => head,
            },
        )
    }

    /// The text that carries the message.
    pub open spec fn wire_text(self) -> Seq<char> {
        json_render(self.to_json())
    }
}

/// A `RegisterActor` request read from its object: all three fields must be there.
pub open spec fn register_actor_of(json: Json) -> Result<MessageView, DecodeErrorView> {
    match required_text(json, "manager_id"@) {
        Err(e) => Err(e),
        Ok(manager_id) => match required_text(json, "actor_name"@) {
            Err(e) => Err(e),
            Ok(actor_name) => match required_text(json, "actor_endpoint"@) {
                Err(e) => Err(e),
                Ok(actor_endpoint) => Ok(
                    MessageView::RegisterActor { manager_id, actor_name, actor_endpoint },
                ),
            },
        },
    }
}

/// A `Heartbeat` request read from its object: both fields must be there.
pub open spec fn heartbeat_of(json: Json) -> Result<MessageView, DecodeErrorView> {
    match required_text(json, "manager_id"@) {
        Err(e) => Err(e),
        Ok(manager_id) => match u64_member(json, "timestamp_ms"@) {
            None => Err(DecodeErrorView::MissingField("timestamp_ms"@)),
            Some(timestamp_ms) => Ok(MessageView::Heartbeat { manager_id, timestamp_ms }),
        },
    }
}

/// The message that a JSON value carries.
///
/// Requests must hold each of their fields. Replies are read leniently: a
/// missing name reads as empty, a missing reason as `Unknown`, a missing
/// `online` as false, and an endpoint that is no string as none.
pub open spec fn message_of(json: Json) -> Result<MessageView, DecodeErrorView> {
    match required_text(json, "message_type"@) {
        Err(e) => Err(e),
        Ok(tag) => if tag == "RegisterActor"@ {
            register_actor_of(json)
        } else if tag == "UnregisterActor"@ {
            match required_text(json, "actor_name"@) {
                Err(e) => Err(e),
                Ok(actor_name) => Ok(MessageView::UnregisterActor { actor_name }),
            }
        } else if tag == "LookupActor"@ {
            match required_text(json, "actor_name"@) {
                Err(e) => Err(e),
                Ok(actor_name) => Ok(MessageView::LookupActor { actor_name }),
            }
        } else if tag == "Heartbeat"@ {
            heartbeat_of(json)
        } else if tag == "RegistrationOk"@ {
            Ok(MessageView::RegistrationOk { actor_name: text_or(json, "actor_name"@, ""@) })
        } else if tag == "RegistrationFailed"@ {
            Ok(
                MessageView::RegistrationFailed {
                    actor_name: text_or(json, "actor_name"@, ""@),
                    reason: text_or(json, "reason"@, "Unknown"@),
                },
            )
        } else if tag == "LookupResult"@ {
            Ok(
                MessageView::LookupResult {
                    actor_name: text_or(json, "actor_name"@, ""@),
                    endpoint: text_member(json, "endpoint"@),
                    online: match bool_member(json, "online"@) {
                        Some(online) => online,
                        None => false,
                    },
                },
            )
        } else if tag == "HeartbeatAck"@ {
            Ok(MessageView::HeartbeatAck)
        } else {
            Err(DecodeErrorView::UnknownTag(tag))
        },
    }
}

/// What a text reads as: a syntax error where it is no JSON, else the message
/// that its value carries.
pub open spec fn decoded(text: Seq<char>) -> Result<MessageView, DecodeErrorView> {
    match json_parse(text) {
        Err(message) => Err(DecodeErrorView::Syntax(message)),
        Ok(json) => message_of(json),
    }
}

/// The text member of `value` under `key`.
fn text_field(value: &serde_json::Value, key: &str) -> (r: Option<String>)
    ensures
        r.deep_view() == text_member(json_view(*value), key@),
{
    match json::member(value, key) {
        Some(found) => match found.as_str() {
            Some(text) => Some(String::from_str(text)),
            None => None,
        },
        None => None,
    }
}

/// The boolean member of `value` under `key`.
fn bool_field(value: &serde_json::Value, key: &str) -> (r: Option<bool>)
    ensures
        r == bool_member(json_view(*value), key@),
{
    match json::member(value, key) {
        Some(found) => found.as_bool(),
        None => None,
    }
}

/// The unsigned member of `value` under `key`.
fn u64_field(value: &serde_json::Value, key: &str) -> (r: Option<u64>)
    ensures
        r == u64_member(json_view(*value), key@),
{
    match json::member(value, key) {
        Some(found) => found.as_u64(),
        None => None,
    }
}

/// The text member of `value` under `key`, or the error that names the key.
fn needed_text(value: &serde_json::Value, key: &str) -> (r: Result<String, DecodeError>)
    ensures
        match r {
            Ok(text) => required_text(json_view(*value), key@) == Ok::<Seq<char>, DecodeErrorView>(
                text@,
            ),
            Err(e) => required_text(json_view(*value), key@) == Err::<Seq<char>, DecodeErrorView>(
                e@,
            ),
        },
{
    match text_field(value, key) {
        Some(text) => Ok(text),
        None => Err(DecodeError::MissingField(String::from_str(key))),
    }
}

/// The text member of `value` under `key`, or `fallback`.
fn text_field_or(value: &serde_json::Value, key: &str, fallback: &str) -> (r: String)
    ensures
        r@ == text_or(json_view(*value), key@, fallback@),
{
    match text_field(value, key) {
        Some(text) => text,
        None => String::from_str(fallback),
    }
}

/// Writes a message as the text that travels: a JSON object with the tag
/// under `message_type` and one member for each field.
pub fn encode(message: &Message) -> (text: String)
    ensures
        text@ == message@.wire_text(),
{
    let mut object = json::object();
    json::insert(&mut object, "message_type", json::text(message.tag()));
    match message {
        Message::RegisterActor(m) => {
            json::insert(&mut object, "manager_id", json::text(m.manager_id.as_str()));
            json::insert(&mut object, "actor_name", json::text(m.actor_name.as_str()));
            json::insert(&mut object, "actor_endpoint", json::text(m.actor_endpoint.as_str()));
        },
        Message::UnregisterActor(m) => {
            json::insert(&mut object, "actor_name", json::text(m.actor_name.as_str()));
        },
        Message::RegistrationOk(m) => {
            json::insert(&mut object, "actor_name", json::text(m.actor_name.as_str()));
        },
        Message::RegistrationFailed(m) => {
            json::insert(&mut object, "actor_name", json::text(m.actor_name.as_str()));
            json::insert(&mut object, "reason", json::text(m.reason.as_str()));
        },
        Message::LookupActor(m) => {
            json::insert(&mut object, "actor_name", json::text(m.actor_name.as_str()));
        },
        Message::LookupResult(m) => {
            json::insert(&mut object, "actor_name", json::text(m.actor_name.as_str()));
            let endpoint = match &m.endpoint {
                Some(address) => json::text(address.as_str()),
                None => json::null(),
            };
            json::insert(&mut object, "endpoint", endpoint);
            json::insert(&mut object, "online", json::boolean(m.online));
        },
        Message::Heartbeat(m) => {
            json::insert(&mut object, "manager_id", json::text(m.manager_id.as_str()));
            json::insert(&mut object, "timestamp_ms", json::unsigned(m.timestamp_ms));
        },
        Message::HeartbeatAck(_) => {},
    }
    json::render(&object)
}

/// Reads the message that a parsed JSON value carries.
pub fn decode_value(value: &serde_json::Value) -> (r: Result<Message, DecodeError>)
    ensures
        match r {
            Ok(message) => message_of(json_view(*value)) == Ok::<MessageView, DecodeErrorView>(
                message@,
            ),
            Err(e) => message_of(json_view(*value)) == Err::<MessageView, DecodeErrorView>(e@),
        },
{
    let tag = needed_text(value, "message_type")?;
    if same(tag.as_str(), "RegisterActor") {
        let manager_id = needed_text(value, "manager_id")?;
        let actor_name = needed_text(value, "actor_name")?;
        let actor_endpoint = needed_text(value, "actor_endpoint")?;
        Ok(Message::RegisterActor(RegisterActor { manager_id, actor_name, actor_endpoint }))
    } else if same(tag.as_str(), "UnregisterActor") {
        let actor_name = needed_text(value, "actor_name")?;
        Ok(Message::UnregisterActor(UnregisterActor { actor_name }))
    } else if same(tag.as_str(), "LookupActor") {
        let actor_name = needed_text(value, "actor_name")?;
        Ok(Message::LookupActor(LookupActor { actor_name }))
    } else if same(tag.as_str(), "Heartbeat") {
        let manager_id = needed_text(value, "manager_id")?;
        match u64_field(value, "timestamp_ms") {
            Some(timestamp_ms) => Ok(Message::Heartbeat(Heartbeat { manager_id, timestamp_ms })),
            None => Err(DecodeError::MissingField(String::from_str("timestamp_ms"))),
        }
    } else if same(tag.as_str(), "RegistrationOk") {
        let actor_name = text_field_or(value, "actor_name", "");
        Ok(Message::RegistrationOk(RegistrationOk { actor_name }))
    } else if same(tag.as_str(), "RegistrationFailed") {
        let actor_name = text_field_or(value, "actor_name", "");
        let reason = text_field_or(value, "reason", "Unknown");
        Ok(Message::RegistrationFailed(RegistrationFailed { actor_name, reason }))
    } else if same(tag.as_str(), "LookupResult") {
        let actor_name = text_field_or(value, "actor_name", "");
        let endpoint = text_field(value, "endpoint");
        let online = match bool_field(value, "online") {
            Some(online) => online,
            None => false,
        };
        Ok(Message::LookupResult(LookupResult { actor_name, endpoint, online }))
    } else if same(tag.as_str(), "HeartbeatAck") {
        Ok(Message::HeartbeatAck(HeartbeatAck))
    } else {
        Err(DecodeError::UnknownTag(tag))
    }
}

/// Reads a message from the text that carried it.
pub fn decode(text: &str) -> (r: Result<Message, DecodeError>)
    ensures
        match r {
            Ok(message) => decoded(text@) == Ok::<MessageView, DecodeErrorView>(message@),
            Err(e) => decoded(text@) == Err::<MessageView, DecodeErrorView>(e@),
        },
{
    match json::parse(text) {
        Ok(value) => decode_value(&value),
        Err(error) => Err(DecodeError::Syntax(json::error_text(&error))),
    }
}

/// The keys of the protocol are eight different texts, and so are its tags.
pub proof fn lemma_names_differ()
    ensures
        "message_type"@ != "manager_id"@,
        "message_type"@ != "actor_name"@,
        "message_type"@ != "actor_endpoint"@,
        "message_type"@ != "reason"@,
        "message_type"@ != "endpoint"@,
        "message_type"@ != "online"@,
        "message_type"@ != "timestamp_ms"@,
        "manager_id"@ != "actor_name"@,
        "manager_id"@ != "actor_endpoint"@,
        "manager_id"@ != "timestamp_ms"@,
        "actor_name"@ != "actor_endpoint"@,
        "actor_name"@ != "reason"@,
        "actor_name"@ != "endpoint"@,
        "actor_name"@ != "online"@,
        "reason"@ != "endpoint"@,
        "reason"@ != "online"@,
        "endpoint"@ != "online"@,
        "RegisterActor"@ != "UnregisterActor"@,
        "RegisterActor"@ != "RegistrationOk"@,
        "RegisterActor"@ != "RegistrationFailed"@,
        "RegisterActor"@ != "LookupActor"@,
        "RegisterActor"@ != "LookupResult"@,
        "RegisterActor"@ != "Heartbeat"@,
        "RegisterActor"@ != "HeartbeatAck"@,
        "UnregisterActor"@ != "RegistrationOk"@,
        "UnregisterActor"@ != "RegistrationFailed"@,
        "UnregisterActor"@ != "LookupActor"@,
        "UnregisterActor"@ != "LookupResult"@,
        "UnregisterActor"@ != "Heartbeat"@,
        "UnregisterActor"@ != "HeartbeatAck"@,
        "RegistrationOk"@ != "RegistrationFailed"@,
        "RegistrationOk"@ != "LookupActor"@,
        "RegistrationOk"@ != "LookupResult"@,
        "RegistrationOk"@ != "Heartbeat"@,
        "RegistrationOk"@ != "HeartbeatAck"@,
        "RegistrationFailed"@ != "LookupActor"@,
        "RegistrationFailed"@ != "LookupResult"@,
        "RegistrationFailed"@ != "Heartbeat"@,
        "RegistrationFailed"@ != "HeartbeatAck"@,
        "LookupActor"@ != "LookupResult"@,
        "LookupActor"@ != "Heartbeat"@,
        "LookupActor"@ != "HeartbeatAck"@,
        "LookupResult"@ != "Heartbeat"@,
        "LookupResult"@ != "HeartbeatAck"@,
        "Heartbeat"@ != "HeartbeatAck"@,
{
    reveal_strlit("message_type");
    reveal_strlit("manager_id");
    reveal_strlit("actor_name");
    reveal_strlit("actor_endpoint");
    reveal_strlit("reason");
    reveal_strlit("endpoint");
    reveal_strlit("online");
    reveal_strlit("timestamp_ms");
    reveal_strlit("RegisterActor");
    reveal_strlit("UnregisterActor");
    reveal_strlit("RegistrationOk");
    reveal_strlit("RegistrationFailed");
    reveal_strlit("LookupActor");
    reveal_strlit("LookupResult");
    reveal_strlit("Heartbeat");
    reveal_strlit("HeartbeatAck");
    assert("message_type"@.len() == 12);
    assert("manager_id"@.len() == 10);
    assert("actor_name"@.len() == 10);
    assert("actor_endpoint"@.len() == 14);
    assert("reason"@.len() == 6);
    assert("endpoint"@.len() == 8);
    assert("online"@.len() == 6);
    assert("timestamp_ms"@.len() == 12);
    assert("RegisterActor"@.len() == 13);
    assert("UnregisterActor"@.len() == 15);
    assert("RegistrationOk"@.len() == 14);
    assert("RegistrationFailed"@.len() == 18);
    assert("LookupActor"@.len() == 11);
    assert("LookupResult"@.len() == 12);
    assert("Heartbeat"@.len() == 9);
    assert("HeartbeatAck"@.len() == 12);
    assert("message_type"@[0] != "timestamp_ms"@[0]);
    assert("manager_id"@[0] != "actor_name"@[0]);
    assert("reason"@[0] != "online"@[0]);
    assert("LookupResult"@[0] != "HeartbeatAck"@[0]);
}

/// Round trip: the JSON object written for a message reads back as that
/// message, whatever its kind and whatever its fields hold.
pub proof fn lemma_round_trip(message: MessageView)
    ensures
        message_of(message.to_json()) == Ok::<MessageView, DecodeErrorView>(message),
{
    lemma_names_differ();
}

} // verus!
