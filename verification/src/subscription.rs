//! The subscription streamer: relays the results of one subscription to its
//! event channel, in order, and closes the channel with a sentinel.
//!
//! The streamer decides; a driver acts. The driver waits for the engine and
//! hands events to the transport, and tells the streamer what came of it.

use vstd::prelude::*;
use crate::channel::channel_name;
use crate::channel::event_channel;
use crate::engine::decoded;
use crate::engine::describes;
use crate::engine::response_text;
use crate::engine::response_to_string;
use crate::error::BridgeError;
use crate::error::ErrorKind;
use crate::error::ErrorView;

verus! {

/// The request that starts a subscription: one operation for the engine, and
/// the identifier by which the caller will know the subscription's events.
/// The caller keeps the identifiers of its running subscriptions apart.
#[derive(Debug)]
pub struct SubscriptionRequest {
    inner: async_graphql::Request,
    id: u32,
}

impl SubscriptionRequest {
    /// The operation for the engine.
    pub closed spec fn operation(&self) -> async_graphql::Request {
        self.inner
    }

    /// The identifier that the caller chose.
    pub closed spec fn identifier(&self) -> u32 {
        self.id
    }

    /// The request for the operation `inner` under the identifier `id`.
    pub fn new(inner: async_graphql::Request, id: u32) -> (request: SubscriptionRequest)
        ensures
            request.operation() == inner,
            request.identifier() == id,
    {
        SubscriptionRequest { inner, id }
    }

    /// The identifier that the caller chose.
    pub fn id(&self) -> (id: u32)
        ensures
            id == self.identifier(),
    {
        self.id
    }

    /// Takes the request apart: the operation for the engine, and the
    /// identifier.
    pub fn into_parts(self) -> (parts: (async_graphql::Request, u32))
        ensures
            parts.0 == self.operation(),
            parts.1 == self.identifier(),
    {
        (self.inner, self.id)
    }
}

/// What an event on a subscription's channel carries.
#[derive(Debug, PartialEq, Eq)]
pub enum Payload {
    /// One result of the subscription, as JSON text.
    Text(String),
    /// The sentinel that ends the sequence: a JSON null.
    Null,
}

/// A payload as a mathematical value.
pub enum PayloadView {
    Text(Seq<char>),
    Null,
}

impl View for Payload {
    type V = PayloadView;

    open spec fn view(&self) -> PayloadView {
        match self {
            Payload::Text(text) => PayloadView::Text(text@),
            Payload::Null => PayloadView::Null,
        }
    }
}

/// An event for the transport: the channel it goes on, and what it carries.
#[derive(Debug, PartialEq, Eq)]
pub struct Emission {
    pub channel: String,
    pub payload: Payload,
}

/// An emission as a mathematical value.
pub struct EmissionView {
    pub channel: Seq<char>,
    pub payload: PayloadView,
}

impl View for Emission {
    type V = EmissionView;

    open spec fn view(&self) -> EmissionView {
        EmissionView { channel: self.channel@, payload: self.payload@ }
    }
}

/// What the driver reports to the streamer.
#[derive(Debug, PartialEq, Eq)]
pub enum Event {
    /// The engine produced a result; this is its JSON text.
    Item(String),
    /// The engine produced a result that could not be serialized; the text
    /// says why.
    Unencodable(String),
    /// The engine closed the stream.
    Exhausted,
    /// The transport took the last emission.
    Delivered,
    /// The transport did not take the last emission; the text says why.
    Undelivered(String),
}

/// A driver's report as a mathematical value.
pub enum EventView {
    Item(Seq<char>),
    Unencodable(Seq<char>),
    Exhausted,
    Delivered,
    Undelivered(Seq<char>),
}

impl View for Event {
    type V = EventView;

    open spec fn view(&self) -> EventView {
        match self {
            Event::Item(text) => EventView::Item(text@),
            Event::Unencodable(detail) => EventView::Unencodable(detail@),
            Event::Exhausted => EventView::Exhausted,
            Event::Delivered => EventView::Delivered,
            Event::Undelivered(detail) => EventView::Undelivered(detail@),
        }
    }
}

/// What the streamer asks of the driver.
#[derive(Debug, PartialEq, Eq)]
pub enum Action {
    /// Wait for the engine's next result and report it.
    Poll,
    /// Hand this emission to the transport and report what came of it.
    Emit(Emission),
    /// The subscription is complete: the sentinel was delivered.
    Finish,
    /// The subscription is aborted with this failure; nothing more is emitted.
    Abort(BridgeError),
}

/// A request to the driver as a mathematical value.
pub enum ActionView {
    Poll,
    Emit(EmissionView),
    Finish,
    Abort(ErrorView),
}

impl View for Action {
    type V = ActionView;

    open spec fn view(&self) -> ActionView {
        match self {
            Action::Poll => ActionView::Poll,
            Action::Emit(emission) => ActionView::Emit(emission@),
            Action::Finish => ActionView::Finish,
            Action::Abort(error) => ActionView::Abort(error@),
        }
    }
}

/// Where a subscription stands.
#[derive(Clone, Copy, Debug, PartialEq, Eq, Structural)]
pub enum Phase {
    /// Waiting for the engine's next result.
    Polling,
    /// A result is with the transport.
    Relaying,
    /// The sentinel is with the transport.
    Closing,
    /// The sentinel was delivered.
    Finished,
    /// The subscription was aborted.
    Failed,
}

/// The state of a streamer: the subscription's identifier and its phase.
pub struct StreamerView {
    pub id: u32,
    pub phase: Phase,
}

/// The event that carries the result `text` of the subscription `id`.
pub open spec fn result_emission(id: u32, text: Seq<char>) -> EmissionView {
    EmissionView { channel: channel_name(id), payload: PayloadView::Text(text) }
}

/// The event that ends the sequence of the subscription `id`.
pub open spec fn sentinel_emission(id: u32) -> EmissionView {
    EmissionView { channel: channel_name(id), payload: PayloadView::Null }
}

/// The streamer's rule: the state that follows `state` on `event`, and what
/// the driver is asked to do next. `None` where the event does not answer
/// what the streamer last asked for; such an event changes nothing.
pub open spec fn next(state: StreamerView, event: EventView) -> Option<(StreamerView, ActionView)> {
    let id = state.id;
    match (state.phase, event) {
        (Phase::Polling, EventView::Item(text)) => Some(
            (
                StreamerView { id, phase: Phase::Relaying },
                ActionView::Emit(result_emission(id, text)),
            ),
        ),
        (Phase::Polling, EventView::Unencodable(detail)) => Some(
            (
                StreamerView { id, phase: Phase::Failed },
                ActionView::Abort(ErrorView { kind: ErrorKind::Encode, message: detail }),
            ),
        ),
        (Phase::Polling, EventView::Exhausted) => Some(
            (StreamerView { id, phase: Phase::Closing }, ActionView::Emit(sentinel_emission(id))),
        ),
        (Phase::Relaying, EventView::Delivered) => Some(
            (StreamerView { id, phase: Phase::Polling }, ActionView::Poll),
        ),
        (Phase::Closing, EventView::Delivered) => Some(
            (StreamerView { id, phase: Phase::Finished }, ActionView::Finish),
        ),
        (Phase::Relaying, EventView::Undelivered(detail)) => Some(
            (
                StreamerView { id, phase: Phase::Failed },
                ActionView::Abort(ErrorView { kind: ErrorKind::Emit, message: detail }),
            ),
        ),
        (Phase::Closing, EventView::Undelivered(detail)) => Some(
            (
                StreamerView { id, phase: Phase::Failed },
                ActionView::Abort(ErrorView { kind: ErrorKind::Emit, message: detail }),
            ),
        ),
        _ => None,
    }
}

/// The streamer of one subscription.
#[derive(Clone, Copy, Debug, PartialEq, Eq)]
pub struct Streamer {
    id: u32,
    phase: Phase,
}

impl View for Streamer {
    type V = StreamerView;

    closed spec fn view(&self) -> StreamerView {
        StreamerView { id: self.id, phase: self.phase }
    }
}

impl Streamer {
    /// A streamer for the subscription `id`, about to poll the engine for the
    /// first time.
    pub fn new(id: u32) -> (streamer: Streamer)
        ensures
            streamer@ == (StreamerView { id, phase: Phase::Polling }),
    {
        Streamer { id, phase: Phase::Polling }
    }

    /// The identifier of the subscription.
    pub fn id(&self) -> (id: u32)
        ensures
            id == self@.id,
    {
        self.id
    }

    /// Where the subscription stands.
    pub fn phase(&self) -> (phase: Phase)
        ensures
            phase == self@.phase,
    {
        self.phase
    }

    /// The name of the channel that the subscription's events go on.
    pub fn channel(&self) -> (name: String)
        ensures
            name@ == channel_name(self@.id),
    {
        event_channel(self.id)
    }

    /// Takes the driver's report and says what to do next, by the rule
    /// [`next`]. An event that does not answer what the streamer last asked
    /// for is refused with `None` and leaves the streamer as it was.
    pub fn step(&mut self, event: Event) -> (asked: Option<Action>)
        ensures
            match next(old(self)@, event@) {
                Some((state, action)) => {
                    &&& final(self)@ == state
                    &&& asked matches Some(a)
                    &&& a@ == action
                },
                None => final(self)@ == old(self)@ && asked is None,
            },
    {
        match self.phase {
            Phase::Polling => match event {
                Event::Item(text) => {
                    self.phase = Phase::Relaying;
                    Some(
                        Action::Emit(
                            Emission { channel: event_channel(self.id), payload: Payload::Text(text) },
                        ),
                    )
                },
                Event::Unencodable(detail) => {
                    self.phase = Phase::Failed;
                    Some(Action::Abort(BridgeError::encode(detail)))
                },
                Event::Exhausted => {
                    self.phase = Phase::Closing;
                    Some(
                        Action::Emit(
                            Emission { channel: event_channel(self.id), payload: Payload::Null },
                        ),
                    )
                },
                _ => None,
            },
            Phase::Relaying => match event {
                Event::Delivered => {
                    self.phase = Phase::Polling;
                    Some(Action::Poll)
                },
                Event::Undelivered(detail) => {
                    self.phase = Phase::Failed;
                    Some(Action::Abort(BridgeError::emit(detail)))
                },
                _ => None,
            },
            Phase::Closing => match event {
                Event::Delivered => {
                    self.phase = Phase::Finished;
                    Some(Action::Finish)
                },
                Event::Undelivered(detail) => {
                    self.phase = Phase::Failed;
                    Some(Action::Abort(BridgeError::emit(detail)))
                },
                _ => None,
            },
            _ => None,
        }
    }
}

impl Event {
    /// The report of an attempt to serialize a result of the engine: the
    /// JSON text, or why there is none.
    pub fn serialized(encoded: Result<String, serde_json::Error>) -> (event: Event)
        ensures
            match encoded {
                Ok(text) => event == Event::Item(text),
                Err(cause) => event matches Event::Unencodable(detail) && describes(cause, detail),
            },
    {
        match encoded {
            Ok(text) => Event::Item(text),
            Err(cause) => Event::Unencodable(cause.to_string()),
        }
    }

    /// The report of what the engine's stream gave when it was polled: a
    /// result, which is serialized here, or nothing more.
    pub fn polled(item: Option<&async_graphql::Response>) -> (event: Event)
        ensures
            match item {
                Some(response) => match response_text(*response) {
                    Ok(text) => event@ == EventView::Item(text),
                    Err(cause) => event matches Event::Unencodable(detail) && describes(
                        cause,
                        detail,
                    ),
                },
                None => event == Event::Exhausted,
            },
    {
        match item {
            Some(response) => Event::serialized(response_to_string(response)),
            None => Event::Exhausted,
        }
    }

    /// The report of what the transport made of the last emission.
    pub fn emitted(outcome: Result<(), String>) -> (event: Event)
        ensures
            match outcome {
                Ok(_) => event == Event::Delivered,
                Err(detail) => event == Event::Undelivered(detail),
            },
    {
        match outcome {
            Ok(_) => Event::Delivered,
            Err(detail) => Event::Undelivered(detail),
        }
    }
}

/// Starts a subscription from the outcome of decoding the invocation's
/// payload.
///
/// A decoded request is accepted: the invocation is resolved at once with an
/// empty acknowledgement, before any result has arrived. The driver opens
/// the engine's stream with the operation that is handed back and then does
/// what the streamer asks, beginning with the action that is handed back: a
/// poll. A payload that could not be decoded rejects the invocation with the
/// decoder's error text.
pub fn begin_subscription(request: Result<SubscriptionRequest, serde_json::Error>) -> (begun:
    Result<(Streamer, async_graphql::Request, Action), BridgeError>)
    ensures
        match request {
            Ok(accepted) => {
                &&& begun matches Ok(started)
                &&& started.0@ == (StreamerView {
                    id: accepted.identifier(),
                    phase: Phase::Polling,
                })
                &&& started.1 == accepted.operation()
                &&& started.2 == Action::Poll
            },
            Err(cause) => {
                &&& begun matches Err(e)
                &&& e.kind == ErrorKind::Decode
                &&& describes(cause, e.message)
            },
        },
{
    match decoded(request) {
        Ok(accepted) => {
            let (operation, id) = accepted.into_parts();
            Ok((Streamer::new(id), operation, Action::Poll))
        },
        Err(e) => Err(e),
    }
}

} // verus!
