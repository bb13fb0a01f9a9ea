//! The exchange on a substream a remote peer opens: one request is read and
//! surfaced to the owner, the owner's answer is awaited, written, and the substream
//! closed. Nothing is written before the owner has supplied the answer.

use vstd::prelude::*;
use crate::codec::{ErrorCode, Message, NewRegistration, Registration, Ttl};
use crate::driver::{Driver, Io, Phase, Progress, UsageError};
use crate::handler::Error;
use crate::trace::{accepted, after, outputs, step, surfaced, terminal_is_absorbing, Op};

verus! {

/// A request of the remote peer, surfaced to the owner.
#[derive(Debug, PartialEq, Eq)]
pub enum OutEvent {
    RegistrationRequested(NewRegistration),
    DiscoverRequested { namespace: Option<String>, cookie: Option<Vec<u8>>, limit: Option<Ttl> },
}

/// The owner's answer to a surfaced request.
#[derive(Debug, PartialEq, Eq)]
pub enum InEvent {
    RegisterResponse { ttl: Ttl },
    DeclineRegisterRequest(ErrorCode),
    DiscoverResponse { discovered: Vec<Registration>, cookie: Vec<u8> },
    DeclineDiscoverRequest(ErrorCode),
}

/// The state of one inbound exchange.
#[derive(Debug, PartialEq, Eq)]
pub enum Exchange {
    /// The substream was accepted; nothing was read yet.
    Negotiated,
    /// The request of the remote peer is due.
    AwaitingRequest,
    /// A request was read and has yet to be surfaced to the owner.
    RequestReceived { request: OutEvent },
    /// The request was surfaced; the driver is idle until the owner answers.
    AwaitingResponseCommand,
    /// The owner's answer is queued for writing.
    SendingResponse { response: Message },
    /// The answer is out; the substream is being closed.
    Closing,
    /// The exchange completed.
    Done,
    /// The owner closed the exchange before it completed.
    Closed,
    /// The exchange failed.
    Errored,
}

impl InEvent {
    /// The message that carries this answer.
    pub open spec fn response(self) -> Message {
        match self {
            InEvent::RegisterResponse { ttl } => Message::RegisterResponse(Ok(ttl)),
            InEvent::DeclineRegisterRequest(error_code) => Message::RegisterResponse(Err(error_code)),
            InEvent::DiscoverResponse { discovered, cookie } => Message::DiscoverResponse(
                Ok((discovered, cookie)),
            ),
            InEvent::DeclineDiscoverRequest(error_code) => Message::DiscoverResponse(Err(error_code)),
        }
    }

    pub fn into_response(self) -> (message: Message)
        ensures
            message == self.response(),
    {
        match self {
            InEvent::RegisterResponse { ttl } => Message::RegisterResponse(Ok(ttl)),
            InEvent::DeclineRegisterRequest(error_code) => Message::RegisterResponse(Err(error_code)),
            InEvent::DiscoverResponse { discovered, cookie } => Message::DiscoverResponse(
                Ok((discovered, cookie)),
            ),
            InEvent::DeclineDiscoverRequest(error_code) => Message::DiscoverResponse(Err(error_code)),
        }
    }
}

/// The event that `received` amounts to as the first message of a substream, or
/// `None` where `received` is no request.
pub open spec fn requested(received: Message) -> Option<OutEvent> {
    match received {
        Message::Register(registration) => Some(OutEvent::RegistrationRequested(registration)),
        Message::Discover { namespace, cookie, limit } => Some(
            OutEvent::DiscoverRequested { namespace, cookie, limit },
        ),
        _ => None,
    }
}

/// Reads `received` as the first message of a substream: the request it is, or the
/// protocol violation that it is.
pub fn interpret(received: Message) -> (result: Result<OutEvent, Error>)
    ensures
        match result {
            Ok(event) => requested(received) == Some(event),
            Err(error) => requested(received) is None && error == Error::BadMessage(received),
        },
{
    match received {
        Message::Register(registration) => Ok(OutEvent::RegistrationRequested(registration)),
        Message::Discover { namespace, cookie, limit } => Ok(
            OutEvent::DiscoverRequested { namespace, cookie, limit },
        ),
        other => Err(Error::BadMessage(other)),
    }
}

impl Driver for Exchange {
    /// An accepted substream needs nothing to start from.
    type OpenInfo = ();

    type InEvent = InEvent;

    type OutEvent = OutEvent;

    type Error = Error;

    open spec fn opened(open_info: ()) -> Exchange {
        Exchange::Negotiated
    }

    open spec fn phase(&self) -> Phase {
        match *self {
            Exchange::Negotiated => Phase::Negotiated,
            Exchange::AwaitingRequest => Phase::AwaitingRead,
            Exchange::RequestReceived { .. } => Phase::Reporting,
            Exchange::AwaitingResponseCommand => Phase::AwaitingWrite,
            Exchange::SendingResponse { .. } => Phase::AwaitingWrite,
            Exchange::Closing => Phase::Closing,
            Exchange::Done => Phase::Closed,
            Exchange::Closed => Phase::Closed,
            Exchange::Errored => Phase::Errored,
        }
    }

    open spec fn queued(&self) -> Option<Message> {
        match *self {
            Exchange::SendingResponse { response } => Some(response),
            _ => None,
        }
    }

    open spec fn advanced(self, io: Io) -> (Exchange, Result<Progress<OutEvent, Error>, UsageError>) {
        match (self, io) {
            (Exchange::Done, _) => (self, Ok(Progress::Done)),
            (Exchange::Closed, _) => (self, Ok(Progress::Done)),
            (Exchange::Errored, _) => (self, Ok(Progress::Done)),
            (Exchange::Negotiated, Io::Idle) => (Exchange::AwaitingRequest, Ok(Progress::Pending)),
            (Exchange::RequestReceived { request }, Io::Idle) => (
                Exchange::AwaitingResponseCommand,
                Ok(Progress::Event(request)),
            ),
            (_, Io::Idle) => (self, Ok(Progress::Pending)),
            (Exchange::AwaitingRequest, Io::Received(received)) => match requested(received) {
                Some(request) => (Exchange::RequestReceived { request }, Ok(Progress::Pending)),
                None => (Exchange::Errored, Ok(Progress::Failed(Error::BadMessage(received)))),
            },
            (Exchange::AwaitingRequest, Io::ReceiveFailed(error)) => (
                Exchange::Errored,
                Ok(Progress::Failed(Error::ReadMessage(error))),
            ),
            (Exchange::AwaitingRequest, Io::EndOfStream) => (
                Exchange::Errored,
                Ok(Progress::Failed(Error::UnexpectedEndOfStream)),
            ),
            (Exchange::SendingResponse { .. }, Io::Sent) => (Exchange::Closing, Ok(Progress::Pending)),
            (Exchange::SendingResponse { .. }, Io::SendFailed(error)) => (
                Exchange::Errored,
                Ok(Progress::Failed(Error::WriteMessage(error))),
            ),
            (Exchange::Closing, Io::Closed) => (Exchange::Done, Ok(Progress::Done)),
            _ => (self, Err(UsageError::UnexpectedIo)),
        }
    }

    open spec fn injected(self, event: InEvent) -> (Exchange, Result<(), UsageError>) {
        match self {
            Exchange::AwaitingResponseCommand => (
                Exchange::SendingResponse { response: event.response() },
                Ok(()),
            ),
            _ => (self, Err(UsageError::NotAwaitingCommand)),
        }
    }

    open spec fn closed(self) -> Exchange {
        if self.phase().terminal() {
            self
        } else {
            Exchange::Closed
        }
    }

    fn new(open_info: ()) -> (driver: Exchange) {
        Exchange::Negotiated
    }

    fn current_phase(&self) -> (phase: Phase) {
        match self {
            Exchange::Negotiated => Phase::Negotiated,
            Exchange::AwaitingRequest => Phase::AwaitingRead,
            Exchange::RequestReceived { .. } => Phase::Reporting,
            Exchange::AwaitingResponseCommand => Phase::AwaitingWrite,
            Exchange::SendingResponse { .. } => Phase::AwaitingWrite,
            Exchange::Closing => Phase::Closing,
            Exchange::Done => Phase::Closed,
            Exchange::Closed => Phase::Closed,
            Exchange::Errored => Phase::Errored,
        }
    }

    fn pending_message(&self) -> (message: Option<&Message>) {
        match self {
            Exchange::SendingResponse { response } => Some(response),
            _ => None,
        }
    }

    fn advance(&mut self, io: Io) -> (result: Result<Progress<OutEvent, Error>, UsageError>) {
        let mut state = Exchange::Errored;
        core::mem::swap(self, &mut state);
        match (state, io) {
            (Exchange::Done, _) => {
                *self = Exchange::Done;
                Ok(Progress::Done)
            },
            (Exchange::Closed, _) => {
                *self = Exchange::Closed;
                Ok(Progress::Done)
            },
            (Exchange::Errored, _) => Ok(Progress::Done),
            (Exchange::Negotiated, Io::Idle) => {
                *self = Exchange::AwaitingRequest;
                Ok(Progress::Pending)
            },
            (Exchange::RequestReceived { request }, Io::Idle) => {
                *self = Exchange::AwaitingResponseCommand;
                Ok(Progress::Event(request))
            },
            (state, Io::Idle) => {
                *self = state;
                Ok(Progress::Pending)
            },
            (Exchange::AwaitingRequest, Io::Received(received)) => match interpret(received) {
                Ok(request) => {
                    *self = Exchange::RequestReceived { request };
                    Ok(Progress::Pending)
                },
                Err(error) => Ok(Progress::Failed(error)),
            },
            (Exchange::AwaitingRequest, Io::ReceiveFailed(error)) => Ok(
                Progress::Failed(Error::ReadMessage(error)),
            ),
            (Exchange::AwaitingRequest, Io::EndOfStream) => Ok(
                Progress::Failed(Error::UnexpectedEndOfStream),
            ),
            (Exchange::SendingResponse { .. }, Io::Sent) => {
                *self = Exchange::Closing;
                Ok(Progress::Pending)
            },
            (Exchange::SendingResponse { .. }, Io::SendFailed(error)) => Ok(
                Progress::Failed(Error::WriteMessage(error)),
            ),
            (Exchange::Closing, Io::Closed) => {
                *self = Exchange::Done;
                Ok(Progress::Done)
            },
            (state, _) => {
                *self = state;
                Err(UsageError::UnexpectedIo)
            },
        }
    }

    fn inject(&mut self, event: InEvent) -> (result: Result<(), UsageError>) {
        match self {
            Exchange::AwaitingResponseCommand => {
                *self = Exchange::SendingResponse { response: event.into_response() };
                Ok(())
            },
            _ => Err(UsageError::NotAwaitingCommand),
        }
    }

    fn close(&mut self) -> (released: bool) {
        let phase = self.current_phase();
        if !phase.is_terminal() {
            *self = Exchange::Closed;
        }
        phase.is_holding_substream()
    }

    proof fn one_message_at_a_time(self) {
    }

    proof fn advance_keeps_shape(self, io: Io) {
    }

    proof fn inject_keeps_shape(self, event: InEvent) {
    }

    proof fn close_keeps_shape(self) {
    }
}

/// A first message is read as a request exactly when its kind is a request kind.
pub proof fn request_goes_by_kind(received: Message)
    ensures
        requested(received) is Some <==> received.kind_of().is_request(),
{
}

impl Exchange {
    /// Whether the request of the remote peer has been surfaced to the owner.
    pub open spec fn has_surfaced_request(self) -> bool {
        self is AwaitingResponseCommand || self.has_taken_response()
    }

    /// Whether the owner's answer was taken in, or the exchange ended without one.
    pub open spec fn has_taken_response(self) -> bool {
        self is SendingResponse || self is Closing || self.phase().terminal()
    }
}

/// A command injected before the request was surfaced, or after an answer was
/// taken in, is turned down as a usage fault: the exchange stays exactly as it
/// was, so nothing is queued for writing on its account.
pub proof fn untimely_command_is_refused(driver: Exchange, event: InEvent)
    requires
        !(driver is AwaitingResponseCommand),
    ensures
        driver.injected(event) == (driver, Err::<(), UsageError>(UsageError::NotAwaitingCommand)),
        driver.injected(event).0.queued() == driver.queued(),
{
}

/// A command is accepted exactly where the request was surfaced and not answered
/// yet, and the message then queued is the one that carries the command.
pub proof fn timely_command_is_queued(driver: Exchange, event: InEvent)
    ensures
        driver.injected(event).1 is Ok <==> driver is AwaitingResponseCommand,
        driver.injected(event).1 is Ok ==> driver.injected(event).0.queued() == Some(event.response()),
{
}

/// Once an answer was taken in, no command is accepted and no event surfaced
/// any more.
pub proof fn nothing_after_the_response(driver: Exchange, ops: Seq<Op<InEvent>>)
    requires
        driver.has_taken_response(),
    ensures
        accepted(driver, ops) == 0,
        after(driver, ops).has_taken_response(),
        forall|i: int| 0 <= i < outputs(driver, ops).len() ==> outputs(driver, ops)[i] is Err,
        outputs(driver, ops).len() <= 1,
    decreases ops.len(),
{
    if ops.len() > 0 {
        let op = ops.first();
        let next = step(driver, op);
        let rest = ops.drop_first();
        nothing_after_the_response(next, rest);
        if surfaced(driver, op).len() > 0 {
            terminal_is_absorbing(next, rest);
        }
    }
}

/// An inbound exchange takes in at most one answer, so at most one response is
/// ever queued for writing, whatever state it starts from and whatever is done
/// to it.
pub proof fn at_most_one_response(driver: Exchange, ops: Seq<Op<InEvent>>)
    ensures
        accepted(driver, ops) <= 1,
    decreases ops.len(),
{
    if ops.len() > 0 {
        let op = ops.first();
        let next = step(driver, op);
        let rest = ops.drop_first();
        if next.has_taken_response() {
            nothing_after_the_response(next, rest);
        } else {
            at_most_one_response(next, rest);
        }
    }
}

/// Once the request was surfaced, no further event is.
pub proof fn no_event_after_the_request(driver: Exchange, ops: Seq<Op<InEvent>>)
    requires
        driver.has_surfaced_request(),
    ensures
        forall|i: int| 0 <= i < outputs(driver, ops).len() ==> outputs(driver, ops)[i] is Err,
        outputs(driver, ops).len() <= 1,
    decreases ops.len(),
{
    if ops.len() > 0 {
        let op = ops.first();
        let next = step(driver, op);
        let rest = ops.drop_first();
        if surfaced(driver, op).len() > 0 {
            terminal_is_absorbing(next, rest);
        } else if next.has_taken_response() {
            nothing_after_the_response(next, rest);
        } else {
            no_event_after_the_request(next, rest);
        }
    }
}

/// An inbound exchange surfaces at most one event, and an event only as the first
/// thing it surfaces.
pub proof fn at_most_one_event(driver: Exchange, ops: Seq<Op<InEvent>>)
    ensures
        outputs(driver, ops).len() <= 2,
        forall|i: int| 0 < i < outputs(driver, ops).len() ==> outputs(driver, ops)[i] is Err,
    decreases ops.len(),
{
    if ops.len() > 0 {
        let op = ops.first();
        let next = step(driver, op);
        let rest = ops.drop_first();
        if surfaced(driver, op).len() > 0 {
            if next.phase().terminal() {
                terminal_is_absorbing(next, rest);
            } else {
                no_event_after_the_request(next, rest);
            }
        } else {
            at_most_one_event(next, rest);
        }
    }
}

/// No answer is taken in before the request was surfaced: a run that starts before
/// that point and accepts a command has surfaced an event first.
pub proof fn response_follows_the_request(driver: Exchange, ops: Seq<Op<InEvent>>)
    requires
        !driver.has_surfaced_request(),
        accepted(driver, ops) > 0,
    ensures
        outputs(driver, ops).len() > 0,
        outputs(driver, ops)[0] is Ok,
    decreases ops.len(),
{
    if ops.len() > 0 {
        let op = ops.first();
        let next = step(driver, op);
        let rest = ops.drop_first();
        if surfaced(driver, op).len() == 0 {
            if next.phase().terminal() {
                terminal_is_absorbing(next, rest);
            } else {
                response_follows_the_request(next, rest);
            }
        } else if next.phase().terminal() {
            terminal_is_absorbing(next, rest);
        }
    }
}

/// Where the request is due, the end of the stream is reported as
/// `UnexpectedEndOfStream` and unparsable bytes as `ReadMessage`, never the one for
/// the other.
pub proof fn read_failures_are_told_apart(driver: Exchange, error: crate::codec::Error)
    requires
        driver.phase() is AwaitingRead,
    ensures
        driver.advanced(Io::EndOfStream) == (
            Exchange::Errored,
            Ok::<Progress<OutEvent, Error>, UsageError>(Progress::Failed(Error::UnexpectedEndOfStream)),
        ),
        driver.advanced(Io::ReceiveFailed(error)) == (
            Exchange::Errored,
            Ok::<Progress<OutEvent, Error>, UsageError>(Progress::Failed(Error::ReadMessage(error))),
        ),
{
}

/// A substream that the remote closes right after negotiation, before any byte of
/// a request, ends in `UnexpectedEndOfStream` and nothing else.
pub proof fn silence_after_negotiation_is_end_of_stream(then: Seq<Op<InEvent>>)
    ensures
        outputs(
            Exchange::opened(()),
            seq![Op::Advance(Io::Idle), Op::Advance(Io::EndOfStream)].add(then),
        ) =~= seq![Err(Error::UnexpectedEndOfStream)],
        after(
            Exchange::opened(()),
            seq![Op::Advance(Io::Idle), Op::Advance(Io::EndOfStream)].add(then),
        ) == Exchange::Errored,
{
    let r0 = seq![Op::<InEvent>::Advance(Io::Idle), Op::Advance(Io::EndOfStream)].add(then);
    let r1 = r0.drop_first();
    let d0 = Exchange::opened(());
    let d1 = step(d0, r0.first());
    assert(r1.drop_first() =~= then);
    assert(d1 == Exchange::AwaitingRequest);
    terminal_is_absorbing(Exchange::Errored, then);
    assert(outputs(d1, r1) =~= surfaced(d1, r1.first()) + outputs(step(d1, r1.first()), then));
    assert(outputs(d0, r0) =~= outputs(d1, r1));
    assert(after(d1, r1) == after(step(d1, r1.first()), then));
    assert(after(d0, r0) == after(d1, r1));
}

} // verus!
