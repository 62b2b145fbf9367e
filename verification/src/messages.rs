//! The messages that managers and the global registry exchange.

use crate::clock::unix_millis;
use vstd::prelude::*;

verus! {

/// A manager announces that an actor can be reached at an endpoint.
///
/// The registry answers with [`RegistrationOk`] or [`RegistrationFailed`].
#[derive(Debug, Clone, PartialEq, Eq)]
pub struct RegisterActor {
    pub manager_id: String,
    pub actor_name: String,
    pub actor_endpoint: String,
}

/// Removes an actor from the registry.
#[derive(Debug, Clone, PartialEq, Eq)]
pub struct UnregisterActor {
    pub actor_name: String,
}

/// The registration was accepted.
#[derive(Debug, Clone, PartialEq, Eq)]
pub struct RegistrationOk {
    pub actor_name: String,
}

/// The registration was refused, with the reason.
#[derive(Debug, Clone, PartialEq, Eq)]
pub struct RegistrationFailed {
    pub actor_name: String,
    pub reason: String,
}

/// Asks where a named actor lives.
#[derive(Debug, Clone, PartialEq, Eq)]
pub struct LookupActor {
    pub actor_name: String,
}

/// The answer to [`LookupActor`].
///
/// No endpoint means that the name is not registered. `online` is false when
/// the owning manager has missed its heartbeats.
#[derive(Debug, Clone, PartialEq, Eq)]
pub struct LookupResult {
    pub actor_name: String,
    pub endpoint: Option<String>,
    pub online: bool,
}

/// The periodic sign of life of a manager.
#[derive(Debug, Clone, PartialEq, Eq)]
pub struct Heartbeat {
    pub manager_id: String,
    pub timestamp_ms: u64,
}

/// Acknowledges a [`Heartbeat`].
#[derive(Debug, Clone, PartialEq, Eq)]
pub struct HeartbeatAck;

/// Any message of the registry protocol.
#[derive(Debug, Clone, PartialEq, Eq)]
pub enum Message {
    RegisterActor(RegisterActor),
    UnregisterActor(UnregisterActor),
    RegistrationOk(RegistrationOk),
    RegistrationFailed(RegistrationFailed),
    LookupActor(LookupActor),
    LookupResult(LookupResult),
    Heartbeat(Heartbeat),
    HeartbeatAck(HeartbeatAck),
}

/// The model of a [`Message`]: its kind and its fields as plain values.
pub enum MessageView {
    RegisterActor { manager_id: Seq<char>, actor_name: Seq<char>, actor_endpoint: Seq<char> },
    UnregisterActor { actor_name: Seq<char> },
    RegistrationOk { actor_name: Seq<char> },
    RegistrationFailed { actor_name: Seq<char>, reason: Seq<char> },
    LookupActor { actor_name: Seq<char> },
    LookupResult { actor_name: Seq<char>, endpoint: Option<Seq<char>>, online: bool },
    Heartbeat { manager_id: Seq<char>, timestamp_ms: u64 },
    HeartbeatAck,
}

impl View for RegisterActor {
    type V = MessageView;

    open spec fn view(&self) -> MessageView {
        MessageView::RegisterActor {
            manager_id: self.manager_id@,
            actor_name: self.actor_name@,
            actor_endpoint: self.actor_endpoint@,
        }
    }
}

impl View for UnregisterActor {
    type V = MessageView;

    open spec fn view(&self) -> MessageView {
        MessageView::UnregisterActor { actor_name: self.actor_name@ }
    }
}

impl View for RegistrationOk {
    type V = MessageView;

    open spec fn view(&self) -> MessageView {
        MessageView::RegistrationOk { actor_name: self.actor_name@ }
    }
}

impl View for RegistrationFailed {
    type V = MessageView;

    open spec fn view(&self) -> MessageView {
        MessageView::RegistrationFailed { actor_name: self.actor_name@, reason: self.reason@ }
    }
}

impl View for LookupActor {
    type V = MessageView;

    open spec fn view(&self) -> MessageView {
        MessageView::LookupActor { actor_name: self.actor_name@ }
    }
}

impl View for LookupResult {
    type V = MessageView;

    open spec fn view(&self) -> MessageView {
        MessageView::LookupResult {
            actor_name: self.actor_name@,
            endpoint: self.endpoint.deep_view(),
            online: self.online,
        }
    }
}

impl View for Heartbeat {
    type V = MessageView;

    open spec fn view(&self) -> MessageView {
        MessageView::Heartbeat { manager_id: self.manager_id@, timestamp_ms: self.timestamp_ms }
    }
}

impl View for HeartbeatAck {
    type V = MessageView;

    open spec fn view(&self) -> MessageView {
        MessageView::HeartbeatAck
    }
}

impl View for Message {
    type V = MessageView;

    open spec fn view(&self) -> MessageView {
        match self {
            Message::RegisterActor(m) => m@,
            Message::UnregisterActor(m) => m@,
            Message::RegistrationOk(m) => m@,
            Message::RegistrationFailed(m) => m@,
            Message::LookupActor(m) => m@,
            Message::LookupResult(m) => m@,
            Message::Heartbeat(m) => m@,
            Message::HeartbeatAck(m) => m@,
        }
    }
}

impl MessageView {
    /// The tag that tells the kinds of message apart on the wire.
    pub open spec fn tag(self) -> Seq<char> {
        match self {
            MessageView::RegisterActor { .. } => "RegisterActor"@,
            MessageView::UnregisterActor { .. } => "UnregisterActor"@,
            MessageView::RegistrationOk { .. } => "RegistrationOk"@,
            MessageView::RegistrationFailed { .. } => "RegistrationFailed"@,
            MessageView::LookupActor { .. } => "LookupActor"@,
            MessageView::LookupResult { .. } => "LookupResult"@,
            MessageView::Heartbeat { .. } => "Heartbeat"@,
            MessageView::HeartbeatAck => "HeartbeatAck"@,
        }
    }
}

impl Message {
    /// The tag that the message travels under.
    pub fn tag(&self) -> (tag: &'static str)
        ensures
            tag@ == self@.tag(),
    {
        match self {
            Message::RegisterActor(_) => "RegisterActor",
            Message::UnregisterActor(_) => "UnregisterActor",
            Message::RegistrationOk(_) => "RegistrationOk",
            Message::RegistrationFailed(_) => "RegistrationFailed",
            Message::LookupActor(_) => "LookupActor",
            Message::LookupResult(_) => "LookupResult",
            Message::Heartbeat(_) => "Heartbeat",
            Message::HeartbeatAck(_) => "HeartbeatAck",
        }
    }
}

impl Heartbeat {
    /// A heartbeat of `manager_id`, stamped with the current reading of the
    /// system clock in milliseconds since the Unix epoch.
    pub fn new(manager_id: String) -> (heartbeat: Heartbeat)
        ensures
            heartbeat.manager_id == manager_id,
    {
        Heartbeat::at(manager_id, unix_millis())
    }

    /// A heartbeat of `manager_id` with the given timestamp.
    pub fn at(manager_id: String, timestamp_ms: u64) -> (heartbeat: Heartbeat)
        ensures
            heartbeat.manager_id == manager_id,
            heartbeat.timestamp_ms == timestamp_ms,
    {
        Heartbeat { manager_id, timestamp_ms }
    }
}

} // verus!
