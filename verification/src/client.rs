//! The manager's side of the protocol: one request at a time over a
//! connection that is opened on first use.
//!
//! [`RegistryClient`] decides; the caller performs. A call such as
//! [`RegistryClient::register`] hands out the first [`Action`]; each
//! [`Event`] passed to [`RegistryClient::advance`] yields the next one, until
//! the [`Outcome`] of the call is known.

use crate::codec::{decode, decoded, encode, DecodeError, DecodeErrorView};
use crate::error::{ErrorView, RegistryError};
use crate::heartbeat::{HeartbeatLoop, HeartbeatState};
use crate::messages::{LookupActor, Message, MessageView, RegisterActor};
use crate::text::{read_utf8, utf8_text};
use crate::transport::{
    copy_bytes, first_frame, take_first_frame, Action, ActionView, Event, EventView,
    CONNECT_SETTLE_MS,
};
use vstd::prelude::*;
use vstd::string::*;
use vstd::utf8::encode_utf8;

verus! {

/// The request that is in flight: its kind and the actor it is about.
#[derive(Debug, Clone, PartialEq, Eq)]
pub enum Call {
    Register { actor_name: String },
    Lookup { actor_name: String },
    LookupAllowOffline { actor_name: String },
}

/// The model of a [`Call`].
pub enum CallView {
    Register { actor_name: Seq<char> },
    Lookup { actor_name: Seq<char> },
    LookupAllowOffline { actor_name: Seq<char> },
}

impl View for Call {
    type V = CallView;

    open spec fn view(&self) -> CallView {
        match self {
            Call::Register { actor_name } => CallView::Register { actor_name: actor_name@ },
            Call::Lookup { actor_name } => CallView::Lookup { actor_name: actor_name@ },
            Call::LookupAllowOffline { actor_name } => CallView::LookupAllowOffline {
                actor_name: actor_name@,
            },
        }
    }
}

/// How a call ended, by its kind.
#[derive(Debug, PartialEq, Eq)]
pub enum Outcome {
    /// The actor is registered, or why it is not.
    Register(Result<(), RegistryError>),
    /// The endpoint of an actor that is online, or why there is none.
    Lookup(Result<String, RegistryError>),
    /// The endpoint of a registered actor and whether its manager is online.
    LookupAllowOffline(Result<(String, bool), RegistryError>),
}

/// The model of an [`Outcome`].
pub enum OutcomeView {
    Register(Result<(), ErrorView>),
    Lookup(Result<Seq<char>, ErrorView>),
    LookupAllowOffline(Result<(Seq<char>, bool), ErrorView>),
}

impl View for Outcome {
    type V = OutcomeView;

    open spec fn view(&self) -> OutcomeView {
        match self {
            Outcome::Register(Ok(_)) => OutcomeView::Register(Ok(())),
            Outcome::Register(Err(e)) => OutcomeView::Register(Err(e@)),
            Outcome::Lookup(Ok(endpoint)) => OutcomeView::Lookup(Ok(endpoint@)),
            Outcome::Lookup(Err(e)) => OutcomeView::Lookup(Err(e@)),
            Outcome::LookupAllowOffline(Ok((endpoint, online))) => OutcomeView::LookupAllowOffline(
                Ok((endpoint@, *online)),
            ),
            Outcome::LookupAllowOffline(Err(e)) => OutcomeView::LookupAllowOffline(Err(e@)),
        }
    }
}

/// The error for a reply that is well-formed but answers another question.
pub open spec fn unexpected_response() -> ErrorView {
    ErrorView::ConnectionError("Unexpected response"@)
}

impl CallView {
    /// The call ends in `error`.
    pub open spec fn fail(self, error: ErrorView) -> OutcomeView {
        match self {
            CallView::Register { .. } => OutcomeView::Register(Err(error)),
            CallView::Lookup { .. } => OutcomeView::Lookup(Err(error)),
            CallView::LookupAllowOffline { .. } => OutcomeView::LookupAllowOffline(Err(error)),
        }
    }

    /// What the registry's reply means for the call.
    ///
    /// A registration succeeds on `RegistrationOk` and fails with the
    /// registry's reason on `RegistrationFailed`. A lookup reads a
    /// `LookupResult`: no endpoint means the name is not registered; an
    /// endpoint whose manager is offline is an error for `Lookup` and a
    /// result for `LookupAllowOffline`. Any other message is unexpected.
    pub open spec fn answer(self, reply: MessageView) -> OutcomeView {
        match self {
            CallView::Register { actor_name } => match reply {
                MessageView::RegistrationOk { .. } => OutcomeView::Register(Ok(())),
                MessageView::RegistrationFailed { reason, .. } => OutcomeView::Register(
                    Err(ErrorView::RegistrationFailed { actor_name, reason }),
                ),
                _ => OutcomeView::Register(Err(unexpected_response())),
            },
            CallView::Lookup { actor_name } => match reply {
                MessageView::LookupResult { endpoint: Some(address), online, .. } => if online {
                    OutcomeView::Lookup(Ok(address))
                } else {
                    OutcomeView::Lookup(Err(ErrorView::Offline(actor_name)))
                },
                MessageView::LookupResult { endpoint: None, .. } => OutcomeView::Lookup(
                    Err(ErrorView::NotFound(actor_name)),
                ),
                _ => OutcomeView::Lookup(Err(unexpected_response())),
            },
            CallView::LookupAllowOffline { actor_name } => match reply {
                MessageView::LookupResult {
                    endpoint: Some(address),
                    online,
                    ..
                } => OutcomeView::LookupAllowOffline(Ok((address, online))),
                MessageView::LookupResult {
                    endpoint: None,
                    ..
                } => OutcomeView::LookupAllowOffline(Err(ErrorView::NotFound(actor_name))),
                _ => OutcomeView::LookupAllowOffline(Err(unexpected_response())),
            },
        }
    }

    /// What a decoded reply means for the call: text that is no JSON is a
    /// connection error that quotes the parser; JSON that is no message of
    /// the protocol is unexpected.
    pub open spec fn conclude(self, reply: Result<MessageView, DecodeErrorView>) -> OutcomeView {
        match reply {
            Ok(message) => self.answer(message),
            Err(DecodeErrorView::Syntax(detail)) => self.fail(
                ErrorView::ConnectionError("Invalid JSON: "@ + detail),
            ),
            Err(_) => self.fail(unexpected_response()),
        }
    }

    /// What a received message means for the call: its first frame is read as
    /// UTF-8 text, the text as a reply.
    pub open spec fn receive(self, frames: Seq<Seq<u8>>) -> OutcomeView {
        match read_utf8(first_frame(frames)) {
            Ok(text) => self.conclude(decoded(text)),
            Err(detail) => self.fail(ErrorView::ConnectionError("Invalid UTF-8: "@ + detail)),
        }
    }
}

/// A connection error whose text is `prefix` followed by `detail`.
fn connection_error(prefix: &str, detail: &str) -> (error: RegistryError)
    ensures
        error@ == ErrorView::ConnectionError(prefix@ + detail@),
{
    RegistryError::ConnectionError(String::from_str(prefix).concat(detail))
}

/// The error for a reply that answers another question.
fn unexpected() -> (error: RegistryError)
    ensures
        error@ == unexpected_response(),
{
    RegistryError::ConnectionError(String::from_str("Unexpected response"))
}

impl Call {
    /// Ends the call in `error`.
    pub fn fail(self, error: RegistryError) -> (outcome: Outcome)
        ensures
            outcome@ == self@.fail(error@),
    {
        match self {
            Call::Register { .. } => Outcome::Register(Err(error)),
            Call::Lookup { .. } => Outcome::Lookup(Err(error)),
            Call::LookupAllowOffline { .. } => Outcome::LookupAllowOffline(Err(error)),
        }
    }

    /// Ends the call with the registry's reply.
    pub fn answer(self, reply: Message) -> (outcome: Outcome)
        ensures
            outcome@ == self@.answer(reply@),
    {
        match self {
            Call::Register { actor_name } => match reply {
                Message::RegistrationOk(_) => Outcome::Register(Ok(())),
                Message::RegistrationFailed(failed) => Outcome::Register(
                    Err(RegistryError::RegistrationFailed { actor_name, reason: failed.reason }),
                ),
                _ => Outcome::Register(Err(unexpected())),
            },
            Call::Lookup { actor_name } => match reply {
                Message::LookupResult(found) => match found.endpoint {
                    Some(address) => if found.online {
                        Outcome::Lookup(Ok(address))
                    } else {
                        Outcome::Lookup(Err(RegistryError::Offline(actor_name)))
                    },
                    None => Outcome::Lookup(Err(RegistryError::NotFound(actor_name))),
                },
                _ => Outcome::Lookup(Err(unexpected())),
            },
            Call::LookupAllowOffline { actor_name } => match reply {
                Message::LookupResult(found) => match found.endpoint {
                    Some(address) => Outcome::LookupAllowOffline(Ok((address, found.online))),
                    None => Outcome::LookupAllowOffline(Err(RegistryError::NotFound(actor_name))),
                },
                _ => Outcome::LookupAllowOffline(
                    Err(unexpected()),
                ),
            },
        }
    }

    /// Ends the call with a reply as the decoder read it.
    pub fn conclude(self, reply: Result<Message, DecodeError>) -> (outcome: Outcome)
        ensures
            match reply {
                Ok(message) => outcome@ == self@.conclude(
                    Ok::<MessageView, DecodeErrorView>(message@),
                ),
                Err(e) => outcome@ == self@.conclude(Err::<MessageView, DecodeErrorView>(e@)),
            },
    {
        match reply {
            Ok(message) => self.answer(message),
            Err(DecodeError::Syntax(detail)) => self.fail(
                connection_error("Invalid JSON: ", detail.as_str()),
            ),
            Err(_) => self.fail(unexpected()),
        }
    }

    /// Ends the call with the message that the connection received.
    pub fn receive(self, frames: Vec<Vec<u8>>) -> (outcome: Outcome)
        ensures
            outcome@ == self@.receive(frames.deep_view()),
    {
        match utf8_text(take_first_frame(frames)) {
            Ok(text) => self.conclude(decode(text.as_str())),
            Err(detail) => self.fail(connection_error("Invalid UTF-8: ", detail.as_str())),
        }
    }
}

/// What [`RegistryClient::advance`] hands back.
#[derive(Debug, PartialEq, Eq)]
pub enum Step {
    /// The exchange goes on with this action.
    Continue(Action),
    /// The exchange is over; this is how the call ended.
    Done(Outcome),
    /// No call is in flight.
    Idle,
}

/// The model of a [`Step`].
pub enum StepView {
    Continue(ActionView),
    Done(OutcomeView),
    Idle,
}

impl View for Step {
    type V = StepView;

    open spec fn view(&self) -> StepView {
        match self {
            Step::Continue(action) => StepView::Continue(action@),
            Step::Done(outcome) => StepView::Done(outcome@),
            Step::Idle => StepView::Idle,
        }
    }
}

/// Where the request in flight stands.
pub enum ExchangeView {
    /// No request is in flight.
    Idle,
    /// The connection is being opened; the request waits.
    Connecting { call: CallView, request: Seq<u8> },
    /// The fresh connection is left to settle; the request waits.
    Settling { call: CallView, request: Seq<u8> },
    /// The request is being sent.
    Sending { call: CallView, request: Seq<u8> },
    /// The reply is awaited.
    Receiving { call: CallView },
}

/// The model of a [`RegistryClient`].
pub struct ClientState {
    pub manager_id: Seq<char>,
    pub registry_endpoint: Seq<char>,
    /// Whether the connection to the registry has been opened.
    pub connected: bool,
    /// Whether the manager wants heartbeats to be sent.
    pub heartbeat_running: bool,
    pub exchange: ExchangeView,
}

/// The bytes of the request that registers `actor_name` at `endpoint` for `manager_id`.
pub open spec fn register_request(
    manager_id: Seq<char>,
    actor_name: Seq<char>,
    endpoint: Seq<char>,
) -> Seq<u8> {
    encode_utf8(
        MessageView::RegisterActor { manager_id, actor_name, actor_endpoint: endpoint }.wire_text(),
    )
}

/// The bytes of the request that asks for `actor_name`.
pub open spec fn lookup_request(actor_name: Seq<char>) -> Seq<u8> {
    encode_utf8(MessageView::LookupActor { actor_name }.wire_text())
}

impl ClientState {
    /// A client that has neither connected nor started its heartbeat.
    pub open spec fn initial(manager_id: Seq<char>, registry_endpoint: Seq<char>) -> ClientState {
        ClientState {
            manager_id,
            registry_endpoint,
            connected: false,
            heartbeat_running: false,
            exchange: ExchangeView::Idle,
        }
    }

    /// Starts a call: `None` and no change while another request is in
    /// flight; else the request is sent at once over an open connection, or
    /// waits for the connection to be opened.
    pub open spec fn begin(self, call: CallView, request: Seq<u8>) -> (
        ClientState,
        Option<ActionView>,
    ) {
        if !(self.exchange is Idle) {
            (self, None)
        } else if self.connected {
            (
                ClientState { exchange: ExchangeView::Sending { call, request }, ..self },
                Some(ActionView::Send(request)),
            )
        } else {
            (
                ClientState { exchange: ExchangeView::Connecting { call, request }, ..self },
                Some(ActionView::Connect(self.registry_endpoint)),
            )
        }
    }

    /// The exchange ends with `outcome`.
    pub open spec fn finish(self, outcome: OutcomeView) -> (ClientState, StepView) {
        (ClientState { exchange: ExchangeView::Idle, ..self }, StepView::Done(outcome))
    }

    /// The next state and step after `event`.
    ///
    /// Connecting is followed by a pause, the pause by the send, the send by
    /// the receive. A failure of the connection ends the call in a connection
    /// error that names the stage and quotes the transport; the reply ends it
    /// as [`CallView::receive`] says. Once opened, the connection counts as
    /// open for every later call. An event that answers nothing the client
    /// asked for leaves the state as it is and repeats the pending action.
    pub open spec fn advance(self, event: EventView) -> (ClientState, StepView) {
        match self.exchange {
            ExchangeView::Idle => (self, StepView::Idle),
            ExchangeView::Connecting { call, request } => match event {
                EventView::Connected => (
                    ClientState {
                        connected: true,
                        exchange: ExchangeView::Settling { call, request },
                        ..self
                    },
                    StepView::Continue(ActionView::Pause(CONNECT_SETTLE_MS)),
                ),
                EventView::ConnectFailed(detail) => self.finish(
                    call.fail(ErrorView::ConnectionError("Failed to connect: "@ + detail)),
                ),
                _ => (self, StepView::Continue(ActionView::Connect(self.registry_endpoint))),
            },
            ExchangeView::Settling { call, request } => match event {
                EventView::Paused => (
                    ClientState { exchange: ExchangeView::Sending { call, request }, ..self },
                    StepView::Continue(ActionView::Send(request)),
                ),
                _ => (self, StepView::Continue(ActionView::Pause(CONNECT_SETTLE_MS))),
            },
            ExchangeView::Sending { call, request } => match event {
                EventView::Sent => (
                    ClientState { exchange: ExchangeView::Receiving { call }, ..self },
                    StepView::Continue(ActionView::Receive),
                ),
                EventView::SendFailed(detail) => self.finish(
                    call.fail(ErrorView::ConnectionError("Send failed: "@ + detail)),
                ),
                _ => (self, StepView::Continue(ActionView::Send(request))),
            },
            ExchangeView::Receiving { call } => match event {
                EventView::Received(frames) => self.finish(call.receive(frames)),
                EventView::ReceiveFailed(detail) => self.finish(
                    call.fail(ErrorView::ConnectionError("Recv failed: "@ + detail)),
                ),
                _ => (self, StepView::Continue(ActionView::Receive)),
            },
        }
    }
}

enum Exchange {
    Idle,
    Connecting { call: Call, request: Vec<u8> },
    Settling { call: Call, request: Vec<u8> },
    Sending { call: Call, request: Vec<u8> },
    Receiving { call: Call },
}

impl View for Exchange {
    type V = ExchangeView;

    closed spec fn view(&self) -> ExchangeView {
        match self {
            Exchange::Idle => ExchangeView::Idle,
            Exchange::Connecting { call, request } => ExchangeView::Connecting {
                call: call@,
                request: request@,
            },
            Exchange::Settling { call, request } => ExchangeView::Settling {
                call: call@,
                request: request@,
            },
            Exchange::Sending { call, request } => ExchangeView::Sending {
                call: call@,
                request: request@,
            },
            Exchange::Receiving { call } => ExchangeView::Receiving { call: call@ },
        }
    }
}

/// A manager's handle on the global registry.
///
/// It registers the manager's actors, looks up the actors of others, and
/// says whether heartbeats are wanted. It holds no socket: see the module
/// text for how calls proceed.
pub struct RegistryClient {
    manager_id: String,
    registry_endpoint: String,
    connected: bool,
    heartbeat_running: bool,
    exchange: Exchange,
}

impl View for RegistryClient {
    type V = ClientState;

    closed spec fn view(&self) -> ClientState {
        ClientState {
            manager_id: self.manager_id@,
            registry_endpoint: self.registry_endpoint@,
            connected: self.connected,
            heartbeat_running: self.heartbeat_running,
            exchange: self.exchange@,
        }
    }
}

impl RegistryClient {
    /// A client for the manager `manager_id` and the registry at
    /// `registry_endpoint`. Nothing is connected yet.
    pub fn new(manager_id: &str, registry_endpoint: &str) -> (client: RegistryClient)
        ensures
            client@ == ClientState::initial(manager_id@, registry_endpoint@),
    {
        RegistryClient {
            manager_id: String::from_str(manager_id),
            registry_endpoint: String::from_str(registry_endpoint),
            connected: false,
            heartbeat_running: false,
            exchange: Exchange::Idle,
        }
    }

    /// The manager that this client speaks for.
    pub fn manager_id(&self) -> (id: &str)
        ensures
            id@ == self@.manager_id,
    {
        self.manager_id.as_str()
    }

    /// The endpoint of the registry.
    pub fn registry_endpoint(&self) -> (endpoint: &str)
        ensures
            endpoint@ == self@.registry_endpoint,
    {
        self.registry_endpoint.as_str()
    }

    /// Whether the connection to the registry has been opened.
    pub fn is_connected(&self) -> (connected: bool)
        ensures
            connected == self@.connected,
    {
        self.connected
    }

    /// Whether no request is in flight.
    pub fn is_idle(&self) -> (idle: bool)
        ensures
            idle == (self@.exchange is Idle),
    {
        match self.exchange {
            Exchange::Idle => true,
            _ => false,
        }
    }

    /// Whether heartbeats are wanted.
    pub fn heartbeat_running(&self) -> (running: bool)
        ensures
            running == self@.heartbeat_running,
    {
        self.heartbeat_running
    }

    fn begin(&mut self, call: Call, request: Vec<u8>) -> (action: Option<Action>)
        ensures
            (final(self)@, action.deep_view()) == old(self)@.begin(call@, request@),
    {
        if !self.is_idle() {
            None
        } else if self.connected {
            let action = Action::Send(copy_bytes(&request));
            self.exchange = Exchange::Sending { call, request };
            Some(action)
        } else {
            self.exchange = Exchange::Connecting { call, request };
            Some(Action::Connect(self.registry_endpoint.clone()))
        }
    }

    /// Starts the registration of `actor_name` at `endpoint` and hands out the
    /// first action; `None`, and nothing changes, while another request is in
    /// flight.
    pub fn register(&mut self, actor_name: &str, endpoint: &str) -> (action: Option<Action>)
        ensures
            (final(self)@, action.deep_view()) == old(self)@.begin(
                CallView::Register { actor_name: actor_name@ },
                register_request(old(self)@.manager_id, actor_name@, endpoint@),
            ),
    {
        let message = Message::RegisterActor(
            RegisterActor {
                manager_id: self.manager_id.clone(),
                actor_name: String::from_str(actor_name),
                actor_endpoint: String::from_str(endpoint),
            },
        );
        let request = encode(&message).as_str().as_bytes_vec();
        self.begin(Call::Register { actor_name: String::from_str(actor_name) }, request)
    }

    /// Starts a lookup of `actor_name` that succeeds only for an actor whose
    /// manager is online, and hands out the first action; `None`, and nothing
    /// changes, while another request is in flight.
    pub fn lookup(&mut self, actor_name: &str) -> (action: Option<Action>)
        ensures
            (final(self)@, action.deep_view()) == old(self)@.begin(
                CallView::Lookup { actor_name: actor_name@ },
                lookup_request(actor_name@),
            ),
    {
        let message = Message::LookupActor(
            LookupActor { actor_name: String::from_str(actor_name) },
        );
        let request = encode(&message).as_str().as_bytes_vec();
        self.begin(Call::Lookup { actor_name: String::from_str(actor_name) }, request)
    }

    /// Starts a lookup of `actor_name` that also succeeds for an actor whose
    /// manager is offline, and hands out the first action; `None`, and
    /// nothing changes, while another request is in flight.
    pub fn lookup_allow_offline(&mut self, actor_name: &str) -> (action: Option<Action>)
        ensures
            (final(self)@, action.deep_view()) == old(self)@.begin(
                CallView::LookupAllowOffline { actor_name: actor_name@ },
                lookup_request(actor_name@),
            ),
    {
        let message = Message::LookupActor(
            LookupActor { actor_name: String::from_str(actor_name) },
        );
        let request = encode(&message).as_str().as_bytes_vec();
        self.begin(Call::LookupAllowOffline { actor_name: String::from_str(actor_name) }, request)
    }

    fn finish(&mut self, outcome: Outcome) -> (step: Step)
        ensures
            (final(self)@, step@) == old(self)@.finish(outcome@),
    {
        self.exchange = Exchange::Idle;
        Step::Done(outcome)
    }

    /// Takes the event that the last action ended in, and hands back the next
    /// action or the outcome of the call.
    pub fn advance(&mut self, event: Event) -> (step: Step)
        ensures
            (final(self)@, step@) == old(self)@.advance(event@),
    {
        let mut exchange = Exchange::Idle;
        std::mem::swap(&mut self.exchange, &mut exchange);
        match exchange {
            Exchange::Idle => Step::Idle,
            Exchange::Connecting { call, request } => match event {
                Event::Connected => {
                    self.connected = true;
                    self.exchange = Exchange::Settling { call, request };
                    Step::Continue(Action::Pause(CONNECT_SETTLE_MS))
                },
                Event::ConnectFailed(detail) => self.finish(
                    call.fail(connection_error("Failed to connect: ", detail.as_str())),
                ),
                _ => {
                    self.exchange = Exchange::Connecting { call, request };
                    Step::Continue(Action::Connect(self.registry_endpoint.clone()))
                },
            },
            Exchange::Settling { call, request } => match event {
                Event::Paused => {
                    let action = Action::Send(copy_bytes(&request));
                    self.exchange = Exchange::Sending { call, request };
                    Step::Continue(action)
                },
                _ => {
                    self.exchange = Exchange::Settling { call, request };
                    Step::Continue(Action::Pause(CONNECT_SETTLE_MS))
                },
            },
            Exchange::Sending { call, request } => match event {
                Event::Sent => {
                    self.exchange = Exchange::Receiving { call };
                    Step::Continue(Action::Receive)
                },
                Event::SendFailed(detail) => self.finish(
                    call.fail(connection_error("Send failed: ", detail.as_str())),
                ),
                _ => {
                    let action = Action::Send(copy_bytes(&request));
                    self.exchange = Exchange::Sending { call, request };
                    Step::Continue(action)
                },
            },
            Exchange::Receiving { call } => match event {
                Event::Received(frames) => self.finish(call.receive(frames)),
                Event::ReceiveFailed(detail) => self.finish(
                    call.fail(connection_error("Recv failed: ", detail.as_str())),
                ),
                _ => {
                    self.exchange = Exchange::Receiving { call };
                    Step::Continue(Action::Receive)
                },
            },
        }
    }

    /// Asks for heartbeats. Hands out the loop that sends them, with its
    /// first action, unless heartbeats are wanted already.
    pub fn start_heartbeat(&mut self) -> (started: Option<(HeartbeatLoop, Action)>)
        ensures
            final(self)@ == (ClientState { heartbeat_running: true, ..old(self)@ }),
            match started {
                Some((beat, action)) => {
                    &&& !old(self)@.heartbeat_running
                    &&& beat@ == HeartbeatState::initial(
                        old(self)@.manager_id,
                        old(self)@.registry_endpoint,
                    )
                    &&& action@ == ActionView::Connect(old(self)@.registry_endpoint)
                },
                None => old(self)@.heartbeat_running,
            },
    {
        if self.heartbeat_running {
            None
        } else {
            self.heartbeat_running = true;
            Some(HeartbeatLoop::start(self.manager_id.as_str(), self.registry_endpoint.as_str()))
        }
    }

    /// Asks for no more heartbeats: the loop ends when it next comes to the
    /// top. Says whether heartbeats were wanted until now.
    pub fn stop_heartbeat(&mut self) -> (was_running: bool)
        ensures
            final(self)@ == (ClientState { heartbeat_running: false, ..old(self)@ }),
            was_running == old(self)@.heartbeat_running,
    {
        let was_running = self.heartbeat_running;
        self.heartbeat_running = false;
        was_running
    }
}

} // verus!
