//! The exchange on a substream the local peer opens: one request derived from the
//! open info is sent, one response is awaited, and the response either becomes the
//! one event of the exchange or fails it.

use vstd::prelude::*;
use void::Void;
use crate::codec::{ErrorCode, Message, NewRegistration, Registration, Ttl};
use crate::driver::{Driver, Io, Phase, Progress, UsageError};
use crate::handler::Error;
use crate::trace::{after, outputs, step, surfaced, terminal_is_absorbing, Op};

verus! {

/// `Void` of the void crate, the type without values. It is only ever named as
/// the type of a channel that does not exist; nothing is claimed of it.
#[verifier::external_type_specification]
#[verifier::external_body]
pub struct ExVoid(Void);

/// What the first message on a new substream is to contain.
#[derive(Debug, PartialEq, Eq)]
pub enum OpenInfo {
    RegisterRequest(NewRegistration),
    DiscoverRequest { namespace: Option<String>, cookie: Option<Vec<u8>>, limit: Option<Ttl> },
}

/// What the owner learns from a completed exchange.
#[derive(Debug, PartialEq, Eq)]
pub enum OutEvent {
    Registered { namespace: String, ttl: Ttl },
    RegisterFailed { namespace: String, error_code: ErrorCode },
    Discovered { registrations: Vec<Registration>, cookie: Vec<u8> },
    DiscoverFailed { namespace: Option<String>, error_code: ErrorCode },
}

/// The state of one outbound exchange.
#[derive(Debug, PartialEq, Eq)]
pub enum Exchange {
    /// A substream was asked for; the open info is kept until it is granted.
    Opening { open_info: OpenInfo },
    /// The substream is open; the request has yet to be derived.
    Negotiated { open_info: OpenInfo },
    /// The request is queued for writing.
    SendingRequest { request: Message },
    /// The request is out, the response is due.
    AwaitingResponse { sent: Message },
    /// The event was surfaced; the substream is being closed.
    Closing,
    /// The exchange completed.
    Done,
    /// The owner closed the exchange before it completed.
    Closed,
    /// The exchange failed.
    Errored,
}

impl OpenInfo {
    /// The request that this open info stands for.
    pub open spec fn request(self) -> Message {
        match self {
            OpenInfo::RegisterRequest(registration) => Message::Register(registration),
            OpenInfo::DiscoverRequest { namespace, cookie, limit } => Message::Discover {
                namespace,
                cookie,
                limit,
            },
        }
    }

    pub fn into_request(self) -> (message: Message)
        ensures
            message == self.request(),
    {
        match self {
            OpenInfo::RegisterRequest(registration) => Message::Register(registration),
            OpenInfo::DiscoverRequest { namespace, cookie, limit } => Message::Discover {
                namespace,
                cookie,
                limit,
            },
        }
    }
}

/// The event that `received` amounts to as the answer to `sent`, or `None` where
/// `received` is no answer to `sent`.
pub open spec fn outcome(sent: Message, received: Message) -> Option<OutEvent> {
    match (sent, received) {
        (Message::Register(registration), Message::RegisterResponse(Ok(ttl))) => Some(
            OutEvent::Registered { namespace: registration.namespace, ttl },
        ),
        (Message::Register(registration), Message::RegisterResponse(Err(error_code))) => Some(
            OutEvent::RegisterFailed { namespace: registration.namespace, error_code },
        ),
        (Message::Discover { .. }, Message::DiscoverResponse(Ok((registrations, cookie)))) => Some(
            OutEvent::Discovered { registrations, cookie },
        ),
        (Message::Discover { namespace, .. }, Message::DiscoverResponse(Err(error_code))) => Some(
            OutEvent::DiscoverFailed { namespace, error_code },
        ),
        _ => None,
    }
}

/// Reads `received` as the answer to `sent`: the event it amounts to, or the
/// protocol violation that it is.
pub fn interpret(sent: Message, received: Message) -> (result: Result<OutEvent, Error>)
    ensures
        match result {
            Ok(event) => outcome(sent, received) == Some(event),
            Err(error) => outcome(sent, received) is None && error == Error::BadMessage(received),
        },
{
    match (sent, received) {
        (Message::Register(registration), Message::RegisterResponse(Ok(ttl))) => Ok(
            OutEvent::Registered { namespace: registration.namespace, ttl },
        ),
        (Message::Register(registration), Message::RegisterResponse(Err(error_code))) => Ok(
            OutEvent::RegisterFailed { namespace: registration.namespace, error_code },
        ),
        (Message::Discover { .. }, Message::DiscoverResponse(Ok((registrations, cookie)))) => Ok(
            OutEvent::Discovered { registrations, cookie },
        ),
        (Message::Discover { namespace, .. }, Message::DiscoverResponse(Err(error_code))) => Ok(
            OutEvent::DiscoverFailed { namespace, error_code },
        ),
        (_, other) => Err(Error::BadMessage(other)),
    }
}

impl Driver for Exchange {
    type OpenInfo = OpenInfo;

    /// No command can be given to an outbound exchange: the type has no value.
    type InEvent = Void;

    type OutEvent = OutEvent;

    type Error = Error;

    open spec fn opened(open_info: OpenInfo) -> Exchange {
        Exchange::Opening { open_info }
    }

    open spec fn phase(&self) -> Phase {
        match *self {
            Exchange::Opening { .. } => Phase::Opening,
            Exchange::Negotiated { .. } => Phase::Negotiated,
            Exchange::SendingRequest { .. } => Phase::AwaitingWrite,
            Exchange::AwaitingResponse { .. } => Phase::AwaitingRead,
            Exchange::Closing => Phase::Closing,
            Exchange::Done => Phase::Closed,
            Exchange::Closed => Phase::Closed,
            Exchange::Errored => Phase::Errored,
        }
    }

    open spec fn queued(&self) -> Option<Message> {
        match *self {
            Exchange::SendingRequest { request } => Some(request),
            _ => None,
        }
    }

    open spec fn advanced(self, io: Io) -> (Exchange, Result<Progress<OutEvent, Error>, UsageError>) {
        match (self, io) {
            (Exchange::Done, _) => (self, Ok(Progress::Done)),
            (Exchange::Closed, _) => (self, Ok(Progress::Done)),
            (Exchange::Errored, _) => (self, Ok(Progress::Done)),
            (Exchange::Negotiated { open_info }, Io::Idle) => (
                Exchange::SendingRequest { request: open_info.request() },
                Ok(Progress::Pending),
            ),
            (_, Io::Idle) => (self, Ok(Progress::Pending)),
            (Exchange::Opening { open_info }, Io::Negotiated) => (
                Exchange::Negotiated { open_info },
                Ok(Progress::Pending),
            ),
            (Exchange::SendingRequest { request }, Io::Sent) => (
                Exchange::AwaitingResponse { sent: request },
                Ok(Progress::Pending),
            ),
            (Exchange::SendingRequest { .. }, Io::SendFailed(error)) => (
                Exchange::Errored,
                Ok(Progress::Failed(Error::WriteMessage(error))),
            ),
            (Exchange::AwaitingResponse { sent }, Io::Received(received)) => match outcome(sent, received) {
                Some(event) => (Exchange::Closing, Ok(Progress::Event(event))),
                None => (Exchange::Errored, Ok(Progress::Failed(Error::BadMessage(received)))),
            },
            (Exchange::AwaitingResponse { .. }, Io::ReceiveFailed(error)) => (
                Exchange::Errored,
                Ok(Progress::Failed(Error::ReadMessage(error))),
            ),
            (Exchange::AwaitingResponse { .. }, Io::EndOfStream) => (
                Exchange::Errored,
                Ok(Progress::Failed(Error::UnexpectedEndOfStream)),
            ),
            (Exchange::Closing, Io::Closed) => (Exchange::Done, Ok(Progress::Done)),
            _ => (self, Err(UsageError::UnexpectedIo)),
        }
    }

    open spec fn injected(self, event: Void) -> (Exchange, Result<(), UsageError>) {
        (self, Err(UsageError::NotAwaitingCommand))
    }

    open spec fn closed(self) -> Exchange {
        if self.phase().terminal() {
            self
        } else {
            Exchange::Closed
        }
    }

    fn new(open_info: OpenInfo) -> (driver: Exchange) {
        Exchange::Opening { open_info }
    }

    fn current_phase(&self) -> (phase: Phase) {
        match self {
            Exchange::Opening { .. } => Phase::Opening,
            Exchange::Negotiated { .. } => Phase::Negotiated,
            Exchange::SendingRequest { .. } => Phase::AwaitingWrite,
            Exchange::AwaitingResponse { .. } => Phase::AwaitingRead,
            Exchange::Closing => Phase::Closing,
            Exchange::Done => Phase::Closed,
            Exchange::Closed => Phase::Closed,
            Exchange::Errored => Phase::Errored,
        }
    }

    fn pending_message(&self) -> (message: Option<&Message>) {
        match self {
            Exchange::SendingRequest { request } => Some(request),
            _ => None,
        }
    }

    fn advance(&mut self, io: Io) -> (result: Result<Progress<OutEvent, Error>, UsageError>) {
        let mut state = Exchange::Errored;
        core::mem::swap(self, &mut state);
        match (state, io) {
            (Exchange::Done, _) => {
                *self = Exchange::Done;
                Ok(Progress::Done)
            },
            (Exchange::Closed, _) => {
                *self = Exchange::Closed;
                Ok(Progress::Done)
            },
            (Exchange::Errored, _) => Ok(Progress::Done),
            (Exchange::Negotiated { open_info }, Io::Idle) => {
                *self = Exchange::SendingRequest { request: open_info.into_request() };
                Ok(Progress::Pending)
            },
            (state, Io::Idle) => {
                *self = state;
                Ok(Progress::Pending)
            },
            (Exchange::Opening { open_info }, Io::Negotiated) => {
                *self = Exchange::Negotiated { open_info };
                Ok(Progress::Pending)
            },
            (Exchange::SendingRequest { request }, Io::Sent) => {
                *self = Exchange::AwaitingResponse { sent: request };
                Ok(Progress::Pending)
            },
            (Exchange::SendingRequest { .. }, Io::SendFailed(error)) => Ok(
                Progress::Failed(Error::WriteMessage(error)),
            ),
            (Exchange::AwaitingResponse { sent }, Io::Received(received)) => match interpret(sent, received) {
                Ok(event) => {
                    *self = Exchange::Closing;
                    Ok(Progress::Event(event))
                },
                Err(error) => Ok(Progress::Failed(error)),
            },
            (Exchange::AwaitingResponse { .. }, Io::ReceiveFailed(error)) => Ok(
                Progress::Failed(Error::ReadMessage(error)),
            ),
            (Exchange::AwaitingResponse { .. }, Io::EndOfStream) => Ok(
                Progress::Failed(Error::UnexpectedEndOfStream),
            ),
            (Exchange::Closing, Io::Closed) => {
                *self = Exchange::Done;
                Ok(Progress::Done)
            },
            (state, _) => {
                *self = state;
                Err(UsageError::UnexpectedIo)
            },
        }
    }

    fn inject(&mut self, event: Void) -> (result: Result<(), UsageError>) {
        Err(UsageError::NotAwaitingCommand)
    }

    fn close(&mut self) -> (released: bool) {
        let phase = self.current_phase();
        if !phase.is_terminal() {
            *self = Exchange::Closed;
        }
        phase.is_holding_substream()
    }

    proof fn one_message_at_a_time(self) {
    }

    proof fn advance_keeps_shape(self, io: Io) {
    }

    proof fn inject_keeps_shape(self, event: Void) {
    }

    proof fn close_keeps_shape(self) {
    }
}

/// A response is read as an event exactly when its kind answers the kind of the
/// request.
pub proof fn outcome_goes_by_kind(sent: Message, received: Message)
    ensures
        outcome(sent, received) is Some <==> sent.kind_of().answered_by(received.kind_of()),
{
}

impl Exchange {
    /// Whether the exchange has surfaced its event or its failure, or was closed.
    pub open spec fn has_reported(self) -> bool {
        self is Closing || self.phase().terminal()
    }
}

/// After its event or its failure an outbound exchange surfaces nothing more.
pub proof fn silent_after_report(driver: Exchange, ops: Seq<Op<Void>>)
    requires
        driver.has_reported(),
    ensures
        outputs(driver, ops).len() == 0,
        after(driver, ops).has_reported(),
    decreases ops.len(),
{
    if ops.len() > 0 {
        silent_after_report(step(driver, ops.first()), ops.drop_first());
    }
}

/// An outbound exchange surfaces at most one thing, an event or a failure, never
/// both, whatever state it starts from and whatever is done to it.
pub proof fn at_most_one_output(driver: Exchange, ops: Seq<Op<Void>>)
    ensures
        outputs(driver, ops).len() <= 1,
    decreases ops.len(),
{
    if ops.len() > 0 {
        let op = ops.first();
        let next = step(driver, op);
        if surfaced(driver, op).len() > 0 {
            silent_after_report(next, ops.drop_first());
        } else {
            at_most_one_output(next, ops.drop_first());
        }
    }
}

/// Unless its owner closes it, an outbound exchange that has come to a terminal
/// state has surfaced exactly one thing on the way.
pub proof fn exactly_one_output_unless_closed(driver: Exchange, ops: Seq<Op<Void>>)
    requires
        !driver.has_reported(),
        forall|i: int| 0 <= i < ops.len() ==> !(#[trigger] ops[i] is Close),
        after(driver, ops).phase().terminal(),
    ensures
        outputs(driver, ops).len() == 1,
    decreases ops.len(),
{
    if ops.len() > 0 {
        let op = ops.first();
        let next = step(driver, op);
        let rest = ops.drop_first();
        assert(!(ops[0] is Close));
        assert forall|i: int| 0 <= i < rest.len() implies !(#[trigger] rest[i] is Close) by {
            assert(rest[i] == ops[i + 1]);
        }
        if surfaced(driver, op).len() > 0 {
            silent_after_report(next, rest);
        } else {
            exactly_one_output_unless_closed(next, rest);
        }
    }
}

/// The run of operations of an exchange in which nothing goes wrong until the
/// response arrives: the substream is granted, the request is derived, written, and
/// `received` is read, followed by whatever `then` holds.
pub open spec fn run_until_response(received: Message, then: Seq<Op<Void>>) -> Seq<Op<Void>> {
    seq![
        Op::Advance(Io::Negotiated),
        Op::Advance(Io::Idle),
        Op::Advance(Io::Sent),
        Op::Advance(Io::Received(received)),
    ].add(then)
}

/// The exchange after the first four operations of [`run_until_response`], and what
/// those operations and any others after them surface.
proof fn run_until_response_unfolds(open_info: OpenInfo, received: Message, then: Seq<Op<Void>>)
    ensures
        ({
            let awaiting = Exchange::AwaitingResponse { sent: open_info.request() };
            let last = Op::<Void>::Advance(Io::Received(received));
            &&& outputs(Exchange::opened(open_info), run_until_response(received, then)) =~= surfaced(
                awaiting,
                last,
            ) + outputs(step(awaiting, last), then)
            &&& after(Exchange::opened(open_info), run_until_response(received, then)) == after(
                step(awaiting, last),
                then,
            )
        }),
{
    let r0 = run_until_response(received, then);
    let r1 = r0.drop_first();
    let r2 = r1.drop_first();
    let r3 = r2.drop_first();
    let d0 = Exchange::opened(open_info);
    let d1 = step(d0, r0.first());
    let d2 = step(d1, r1.first());
    let d3 = step(d2, r2.first());
    assert(r3.drop_first() =~= then);
    assert(d1 == Exchange::Negotiated { open_info });
    assert(d2 == Exchange::SendingRequest { request: open_info.request() });
    assert(d3 == Exchange::AwaitingResponse { sent: open_info.request() });
    assert(outputs(d3, r3) =~= surfaced(d3, r3.first()) + outputs(step(d3, r3.first()), then));
    assert(outputs(d2, r2) =~= outputs(d3, r3));
    assert(outputs(d1, r1) =~= outputs(d2, r2));
    assert(outputs(d0, r0) =~= outputs(d1, r1));
    assert(after(d3, r3) == after(step(d3, r3.first()), then));
    assert(after(d2, r2) == after(d3, r3));
    assert(after(d1, r1) == after(d2, r2));
    assert(after(d0, r0) == after(d1, r1));
}

/// For every open info, a response of the expected kind yields exactly one event,
/// the one that response amounts to, and no error, whatever happens afterwards.
pub proof fn expected_response_yields_one_event(open_info: OpenInfo, received: Message, then: Seq<Op<Void>>)
    requires
        open_info.request().kind_of().answered_by(received.kind_of()),
    ensures
        outcome(open_info.request(), received) is Some,
        outputs(Exchange::opened(open_info), run_until_response(received, then)) =~= seq![
            Ok(outcome(open_info.request(), received)->Some_0),
        ],
        after(Exchange::opened(open_info), run_until_response(received, then)).has_reported(),
{
    run_until_response_unfolds(open_info, received, then);
    silent_after_report(Exchange::Closing, then);
}

/// A message of any other kind than the expected one, read where the response is
/// due, yields `BadMessage` with that message and no event, whatever happens
/// afterwards.
pub proof fn unexpected_response_is_bad_message(sent: Message, received: Message, then: Seq<Op<Void>>)
    requires
        !sent.kind_of().answered_by(received.kind_of()),
    ensures
        (Exchange::AwaitingResponse { sent }).advanced(Io::Received(received)) == (
            Exchange::Errored,
            Ok::<Progress<OutEvent, Error>, UsageError>(Progress::Failed(Error::BadMessage(received))),
        ),
        outputs(
            Exchange::AwaitingResponse { sent },
            seq![Op::Advance(Io::Received(received))].add(then),
        ) =~= seq![Err(Error::BadMessage(received))],
{
    let driver = Exchange::AwaitingResponse { sent };
    let run = seq![Op::<Void>::Advance(Io::Received(received))].add(then);
    assert(run.drop_first() =~= then);
    terminal_is_absorbing(Exchange::Errored, then);
}

/// The same from the start of an exchange: where the peer answers the request with
/// a message of another kind, the exchange surfaces `BadMessage` and nothing else.
pub proof fn unexpected_response_fails_the_exchange(
    open_info: OpenInfo,
    received: Message,
    then: Seq<Op<Void>>,
)
    requires
        !open_info.request().kind_of().answered_by(received.kind_of()),
    ensures
        outputs(Exchange::opened(open_info), run_until_response(received, then)) =~= seq![
            Err(Error::BadMessage(received)),
        ],
        after(Exchange::opened(open_info), run_until_response(received, then)) == Exchange::Errored,
{
    run_until_response_unfolds(open_info, received, then);
    terminal_is_absorbing(Exchange::Errored, then);
}

/// Where a response is due, the end of the stream is reported as
/// `UnexpectedEndOfStream` and unparsable bytes as `ReadMessage`, never the one for
/// the other.
pub proof fn read_failures_are_told_apart(driver: Exchange, error: crate::codec::Error)
    requires
        driver.phase() is AwaitingRead,
    ensures
        driver.advanced(Io::EndOfStream) == (
            Exchange::Errored,
            Ok::<Progress<OutEvent, Error>, UsageError>(Progress::Failed(Error::UnexpectedEndOfStream)),
        ),
        driver.advanced(Io::ReceiveFailed(error)) == (
            Exchange::Errored,
            Ok::<Progress<OutEvent, Error>, UsageError>(Progress::Failed(Error::ReadMessage(error))),
        ),
{
}

} // verus!
