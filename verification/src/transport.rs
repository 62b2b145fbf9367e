//! What the protocol asks of the connection to the registry, and what the
//! connection reports back. The caller owns the socket: it carries out each
//! [`Action`] and answers with the [`Event`] that came of it.

use vstd::prelude::*;

verus! {

/// Milliseconds to let a fresh connection settle before the first request.
pub const CONNECT_SETTLE_MS: u64 = 50;

/// Milliseconds between two heartbeats.
pub const HEARTBEAT_INTERVAL_MS: u64 = 2000;

/// A manager is offline once its last heartbeat is this many milliseconds old:
/// three missed intervals.
pub const OFFLINE_THRESHOLD_MS: u64 = 3 * HEARTBEAT_INTERVAL_MS;

/// One thing for the caller to do on the connection.
#[derive(Debug, Clone, PartialEq, Eq)]
pub enum Action {
    /// Open a connection to the endpoint.
    Connect(String),
    /// Sleep for so many milliseconds.
    Pause(u64),
    /// Send the payload as one message.
    Send(Vec<u8>),
    /// Wait for the next message.
    Receive,
}

/// The model of an [`Action`].
pub enum ActionView {
    Connect(Seq<char>),
    Pause(u64),
    Send(Seq<u8>),
    Receive,
}

impl View for Action {
    type V = ActionView;

    open spec fn view(&self) -> ActionView {
        match self {
            Action::Connect(endpoint) => ActionView::Connect(endpoint@),
            Action::Pause(millis) => ActionView::Pause(*millis),
            Action::Send(payload) => ActionView::Send(payload@),
            Action::Receive => ActionView::Receive,
        }
    }
}

impl DeepView for Action {
    type V = ActionView;

    open spec fn deep_view(&self) -> ActionView {
        self@
    }
}

/// What came of an [`Action`]. A failure carries the transport's own message.
#[derive(Debug, Clone, PartialEq, Eq)]
pub enum Event {
    Connected,
    ConnectFailed(String),
    Paused,
    Sent,
    SendFailed(String),
    /// A message arrived; it holds the frames in order.
    Received(Vec<Vec<u8>>),
    ReceiveFailed(String),
}

/// The model of an [`Event`].
pub enum EventView {
    Connected,
    ConnectFailed(Seq<char>),
    Paused,
    Sent,
    SendFailed(Seq<char>),
    Received(Seq<Seq<u8>>),
    ReceiveFailed(Seq<char>),
}

impl View for Event {
    type V = EventView;

    open spec fn view(&self) -> EventView {
        match self {
            Event::Connected => EventView::Connected,
            Event::ConnectFailed(detail) => EventView::ConnectFailed(detail@),
            Event::Paused => EventView::Paused,
            Event::Sent => EventView::Sent,
            Event::SendFailed(detail) => EventView::SendFailed(detail@),
            Event::Received(frames) => EventView::Received(frames.deep_view()),
            Event::ReceiveFailed(detail) => EventView::ReceiveFailed(detail@),
        }
    }
}

/// The payload of a message: its first frame, or nothing where it has no frame.
pub open spec fn first_frame(frames: Seq<Seq<u8>>) -> Seq<u8> {
    if frames.len() > 0 {
        frames[0]
    } else {
        Seq::empty()
    }
}

/// Takes the payload out of a received message.
pub fn take_first_frame(frames: Vec<Vec<u8>>) -> (payload: Vec<u8>)
    ensures
        payload@ == first_frame(frames.deep_view()),
{
    let mut frames = frames;
    if frames.len() > 0 {
        frames.swap_remove(0)
    } else {
        Vec::new()
    }
}

/// A copy of a payload.
pub fn copy_bytes(bytes: &Vec<u8>) -> (copy: Vec<u8>)
    ensures
        copy@ == bytes@,
{
    let copy = bytes.clone();
    assert(copy@ =~= bytes@);
    copy
}

} // verus!
