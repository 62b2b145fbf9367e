//! The heartbeat loop of a manager: connect once, then announce the manager
//! every two seconds until told to stop.
//!
//! The loop has a connection of its own and never fails loudly: a heartbeat
//! that cannot be sent or is not answered is skipped, and the next one is
//! tried after the usual interval.

use crate::clock::unix_millis;
use crate::codec::encode;
use crate::messages::{Heartbeat, Message, MessageView};
use crate::transport::{
    copy_bytes, Action, ActionView, Event, EventView, CONNECT_SETTLE_MS, HEARTBEAT_INTERVAL_MS,
};
use vstd::prelude::*;
use vstd::string::*;
use vstd::utf8::encode_utf8;

verus! {

/// Where the loop stands.
pub enum BeatPhaseView {
    /// The connection is being opened.
    Connecting,
    /// The fresh connection is left to settle.
    Settling,
    /// A heartbeat is being sent; holds its bytes.
    Sending(Seq<u8>),
    /// The acknowledgement is awaited.
    Receiving,
    /// The interval to the next heartbeat runs.
    Waiting,
    /// The loop has ended.
    Stopped,
}

/// The model of a [`HeartbeatLoop`].
pub struct HeartbeatState {
    pub manager_id: Seq<char>,
    pub registry_endpoint: Seq<char>,
    pub phase: BeatPhaseView,
}

/// The bytes of the heartbeat of `manager_id` stamped `timestamp_ms`.
pub open spec fn heartbeat_request(manager_id: Seq<char>, timestamp_ms: u64) -> Seq<u8> {
    encode_utf8(MessageView::Heartbeat { manager_id, timestamp_ms }.wire_text())
}

impl HeartbeatState {
    /// The loop as it starts: about to connect.
    pub open spec fn initial(manager_id: Seq<char>, registry_endpoint: Seq<char>) -> HeartbeatState {
        HeartbeatState { manager_id, registry_endpoint, phase: BeatPhaseView::Connecting }
    }

    /// The top of the loop: send a heartbeat stamped `now_ms` while the
    /// manager wants heartbeats, end otherwise.
    pub open spec fn beat(self, running: bool, now_ms: u64) -> (HeartbeatState, Option<ActionView>) {
        if running {
            let request = heartbeat_request(self.manager_id, now_ms);
            (
                HeartbeatState { phase: BeatPhaseView::Sending(request), ..self },
                Some(ActionView::Send(request)),
            )
        } else {
            (HeartbeatState { phase: BeatPhaseView::Stopped, ..self }, None)
        }
    }

    /// The interval before the next heartbeat.
    pub open spec fn rest(self) -> (HeartbeatState, Option<ActionView>) {
        (
            HeartbeatState { phase: BeatPhaseView::Waiting, ..self },
            Some(ActionView::Pause(HEARTBEAT_INTERVAL_MS)),
        )
    }

    /// The next state and the next thing to do, `None` once the loop has
    /// ended.
    ///
    /// The loop ends when the connection cannot be opened, and at the top of
    /// the loop when `running` is false. A failed send or receive only skips
    /// to the interval. An event that answers nothing the loop asked for
    /// leaves the state as it is and repeats the pending action.
    pub open spec fn advance(self, event: EventView, running: bool, now_ms: u64) -> (
        HeartbeatState,
        Option<ActionView>,
    ) {
        match self.phase {
            BeatPhaseView::Connecting => match event {
                EventView::Connected => (
                    HeartbeatState { phase: BeatPhaseView::Settling, ..self },
                    Some(ActionView::Pause(CONNECT_SETTLE_MS)),
                ),
                EventView::ConnectFailed(_) => (
                    HeartbeatState { phase: BeatPhaseView::Stopped, ..self },
                    None,
                ),
                _ => (self, Some(ActionView::Connect(self.registry_endpoint))),
            },
            BeatPhaseView::Settling => match event {
                EventView::Paused => self.beat(running, now_ms),
                _ => (self, Some(ActionView::Pause(CONNECT_SETTLE_MS))),
            },
            BeatPhaseView::Sending(request) => match event {
                EventView::Sent => (
                    HeartbeatState { phase: BeatPhaseView::Receiving, ..self },
                    Some(ActionView::Receive),
                ),
                EventView::SendFailed(_) => self.rest(),
                _ => (self, Some(ActionView::Send(request))),
            },
            BeatPhaseView::Receiving => match event {
                EventView::Received(_) => self.rest(),
                EventView::ReceiveFailed(_) => self.rest(),
                _ => (self, Some(ActionView::Receive)),
            },
            BeatPhaseView::Waiting => match event {
                EventView::Paused => self.beat(running, now_ms),
                _ => (self, Some(ActionView::Pause(HEARTBEAT_INTERVAL_MS))),
            },
            BeatPhaseView::Stopped => (self, None),
        }
    }
}

enum BeatPhase {
    Connecting,
    Settling,
    Sending(Vec<u8>),
    Receiving,
    Waiting,
    Stopped,
}

impl View for BeatPhase {
    type V = BeatPhaseView;

    closed spec fn view(&self) -> BeatPhaseView {
        match self {
            BeatPhase::Connecting => BeatPhaseView::Connecting,
            BeatPhase::Settling => BeatPhaseView::Settling,
            BeatPhase::Sending(request) => BeatPhaseView::Sending(request@),
            BeatPhase::Receiving => BeatPhaseView::Receiving,
            BeatPhase::Waiting => BeatPhaseView::Waiting,
            BeatPhase::Stopped => BeatPhaseView::Stopped,
        }
    }
}

/// The heartbeat loop of one manager.
pub struct HeartbeatLoop {
    manager_id: String,
    registry_endpoint: String,
    phase: BeatPhase,
}

impl View for HeartbeatLoop {
    type V = HeartbeatState;

    closed spec fn view(&self) -> HeartbeatState {
        HeartbeatState {
            manager_id: self.manager_id@,
            registry_endpoint: self.registry_endpoint@,
            phase: self.phase@,
        }
    }
}

impl HeartbeatLoop {
    /// A loop for `manager_id` that will report to `registry_endpoint`, and
    /// its first action: to connect there.
    pub fn start(manager_id: &str, registry_endpoint: &str) -> (r: (HeartbeatLoop, Action))
        ensures
            r.0@ == HeartbeatState::initial(manager_id@, registry_endpoint@),
            r.1@ == ActionView::Connect(registry_endpoint@),
    {
        (
            HeartbeatLoop {
                manager_id: String::from_str(manager_id),
                registry_endpoint: String::from_str(registry_endpoint),
                phase: BeatPhase::Connecting,
            },
            Action::Connect(String::from_str(registry_endpoint)),
        )
    }

    /// Whether the loop has ended.
    pub fn is_stopped(&self) -> (stopped: bool)
        ensures
            stopped == (self@.phase is Stopped),
    {
        match self.phase {
            BeatPhase::Stopped => true,
            _ => false,
        }
    }

    fn beat(&mut self, running: bool, now_ms: u64) -> (action: Option<Action>)
        ensures
            (final(self)@, action.deep_view()) == old(self)@.beat(running, now_ms),
    {
        if running {
            let heartbeat = Heartbeat::at(self.manager_id.clone(), now_ms);
            let request = encode(&Message::Heartbeat(heartbeat)).as_str().as_bytes_vec();
            let action = Action::Send(copy_bytes(&request));
            self.phase = BeatPhase::Sending(request);
            Some(action)
        } else {
            self.phase = BeatPhase::Stopped;
            None
        }
    }

    fn rest(&mut self) -> (action: Option<Action>)
        ensures
            (final(self)@, action.deep_view()) == old(self)@.rest(),
    {
        self.phase = BeatPhase::Waiting;
        Some(Action::Pause(HEARTBEAT_INTERVAL_MS))
    }

    /// Takes the event that the last action ended in and hands out the next
    /// action, for a clock that reads `now_ms`; `running` says whether the
    /// manager still wants heartbeats.
    pub fn advance_at(&mut self, event: Event, running: bool, now_ms: u64) -> (action: Option<
        Action,
    >)
        ensures
            (final(self)@, action.deep_view()) == old(self)@.advance(event@, running, now_ms),
    {
        match &self.phase {
            BeatPhase::Connecting => match event {
                Event::Connected => {
                    self.phase = BeatPhase::Settling;
                    Some(Action::Pause(CONNECT_SETTLE_MS))
                },
                Event::ConnectFailed(_) => {
                    self.phase = BeatPhase::Stopped;
                    None
                },
                _ => Some(Action::Connect(self.registry_endpoint.clone())),
            },
            BeatPhase::Settling => match event {
                Event::Paused => self.beat(running, now_ms),
                _ => Some(Action::Pause(CONNECT_SETTLE_MS)),
            },
            BeatPhase::Sending(request) => match event {
                Event::Sent => {
                    self.phase = BeatPhase::Receiving;
                    Some(Action::Receive)
                },
                Event::SendFailed(_) => self.rest(),
                _ => Some(Action::Send(copy_bytes(request))),
            },
            BeatPhase::Receiving => match event {
                Event::Received(_) => self.rest(),
                Event::ReceiveFailed(_) => self.rest(),
                _ => Some(Action::Receive),
            },
            BeatPhase::Waiting => match event {
                Event::Paused => self.beat(running, now_ms),
                _ => Some(Action::Pause(HEARTBEAT_INTERVAL_MS)),
            },
            BeatPhase::Stopped => None,
        }
    }

    /// Takes the event that the last action ended in and hands out the next
    /// action; a heartbeat that is due is stamped with the system clock.
    pub fn advance(&mut self, event: Event, running: bool) -> (action: Option<Action>)
        ensures
            exists|now_ms: u64|
                (final(self)@, action.deep_view()) == #[trigger] old(self)@.advance(
                    event@,
                    running,
                    now_ms,
                ),
    {
        self.advance_at(event, running, unix_millis())
    }
}

} // verus!
