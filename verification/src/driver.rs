//! The per-substream driver: one state machine per substream, advanced by the owner
//! each time an operation on that substream completes.
//!
//! The driver never touches the stream itself. The owner looks at the driver's
//! [`Phase`] (and at the message it has queued, if any), attempts the matching
//! operation on the substream, and reports how it went as an [`Io`] value. The driver
//! answers with what, if anything, the owner has to be told.

use vstd::prelude::*;
use crate::codec;
use crate::codec::Message;

verus! {

/// What happened on the substream since the driver was last advanced.
#[derive(Debug, PartialEq, Eq)]
pub enum Io {
    /// Nothing: the operation the driver waits for has not completed, or it waits for none.
    Idle,
    /// The substream was opened and both peers agreed on the protocol identifier.
    Negotiated,
    /// The queued message was written and flushed.
    Sent,
    /// The codec failed to write the queued message.
    SendFailed(codec::Error),
    /// A complete message was read.
    Received(Message),
    /// Bytes arrived that the codec could not parse into a message.
    ReceiveFailed(codec::Error),
    /// The remote closed the substream and no message, nor part of one, was pending.
    EndOfStream,
    /// The substream finished closing.
    Closed,
}

impl Io {
    /// What one read of the codec amounts to: a message, the failure to parse what
    /// arrived, or, where the stream ended with nothing pending, the end of the stream.
    pub open spec fn of_read(outcome: Option<Result<Message, codec::Error>>) -> Io {
        match outcome {
            Some(Ok(message)) => Io::Received(message),
            Some(Err(error)) => Io::ReceiveFailed(error),
            None => Io::EndOfStream,
        }
    }

    /// What one completed write of the codec amounts to.
    pub open spec fn of_write(outcome: Result<(), codec::Error>) -> Io {
        match outcome {
            Ok(_) => Io::Sent,
            Err(error) => Io::SendFailed(error),
        }
    }

    pub fn from_read(outcome: Option<Result<Message, codec::Error>>) -> (io: Io)
        ensures
            io == Io::of_read(outcome),
    {
        match outcome {
            Some(Ok(message)) => Io::Received(message),
            Some(Err(error)) => Io::ReceiveFailed(error),
            None => Io::EndOfStream,
        }
    }

    pub fn from_write(outcome: Result<(), codec::Error>) -> (io: Io)
        ensures
            io == Io::of_write(outcome),
    {
        match outcome {
            Ok(_) => Io::Sent,
            Err(error) => Io::SendFailed(error),
        }
    }
}

/// What one call of `advance` tells the owner.
#[derive(Debug, PartialEq, Eq)]
pub enum Progress<TEvent, TError> {
    /// No event yet.
    Pending,
    /// An event for the owner; the exchange goes on.
    Event(TEvent),
    /// The driver is in a terminal state and has nothing more to say.
    Done,
    /// The exchange failed; the driver is now terminal.
    Failed(TError),
}

/// A fault of the owner, not of the remote peer. The driver is left as it was.
#[derive(Debug, Clone, Copy, PartialEq, Eq, Structural)]
pub enum UsageError {
    /// An operation was reported that the driver was not waiting for.
    UnexpectedIo,
    /// A command was injected while the driver was not waiting for one.
    NotAwaitingCommand,
}

/// The states every driver goes through, whatever protocol runs over the substream.
#[derive(Debug, Clone, Copy, PartialEq, Eq, Structural)]
pub enum Phase {
    /// A substream was asked for and has not been granted yet.
    Opening,
    /// The substream is open and the protocol agreed on.
    Negotiated,
    /// A message is queued for writing, or the owner has yet to supply one.
    AwaitingWrite,
    /// The next thing to happen is a message from the remote.
    AwaitingRead,
    /// A message was read and an event for the owner is ready.
    Reporting,
    /// The exchange is over and the substream is being closed.
    Closing,
    /// Terminal: the exchange completed, or the owner closed the driver.
    Closed,
    /// Terminal: the exchange failed.
    Errored,
}

impl Phase {
    /// Position in the order in which phases may follow one another.
    pub open spec fn rank(self) -> nat {
        match self {
            Phase::Opening => 0,
            Phase::Negotiated => 1,
            Phase::AwaitingWrite => 2,
            Phase::AwaitingRead => 2,
            Phase::Reporting => 2,
            Phase::Closing => 3,
            Phase::Closed => 4,
            Phase::Errored => 4,
        }
    }

    pub open spec fn terminal(self) -> bool {
        self is Closed || self is Errored
    }

    /// Whether a driver in this phase owns an open substream.
    pub open spec fn holds_substream(self) -> bool {
        !(self is Opening) && !self.terminal()
    }

    /// Whether a driver in this phase, with or without a queued message, is waiting
    /// for the operation that `io` reports. `Idle` reports none and always fits; a
    /// terminal driver ignores whatever is reported.
    pub open spec fn expects(self, queued: bool, io: Io) -> bool {
        match io {
            Io::Idle => true,
            Io::Negotiated => self is Opening || self.terminal(),
            Io::Sent => (self is AwaitingWrite && queued) || self.terminal(),
            Io::SendFailed(_) => (self is AwaitingWrite && queued) || self.terminal(),
            Io::Received(_) => self is AwaitingRead || self.terminal(),
            Io::ReceiveFailed(_) => self is AwaitingRead || self.terminal(),
            Io::EndOfStream => self is AwaitingRead || self.terminal(),
            Io::Closed => self is Closing || self.terminal(),
        }
    }

    /// Whether a driver in this phase moves on without any operation completing.
    pub open spec fn steps_alone(self) -> bool {
        self is Negotiated || self is Reporting
    }

    pub fn is_terminal(&self) -> (r: bool)
        ensures
            r == self.terminal(),
    {
        match self {
            Phase::Closed => true,
            Phase::Errored => true,
            _ => false,
        }
    }

    pub fn is_holding_substream(&self) -> (r: bool)
        ensures
            r == self.holds_substream(),
    {
        match self {
            Phase::Opening => false,
            Phase::Closed => false,
            Phase::Errored => false,
            _ => true,
        }
    }
}

/// `advance` said that there is no event yet.
pub open spec fn tells_pending<E, F>(result: Result<Progress<E, F>, UsageError>) -> bool {
    result matches Ok(Progress::Pending)
}

/// `advance` surfaced an event.
pub open spec fn tells_event<E, F>(result: Result<Progress<E, F>, UsageError>) -> bool {
    result matches Ok(Progress::Event(_))
}

/// `advance` said that the driver is terminal and silent.
pub open spec fn tells_done<E, F>(result: Result<Progress<E, F>, UsageError>) -> bool {
    result matches Ok(Progress::Done)
}

/// `advance` reported the failure of the exchange.
pub open spec fn tells_failure<E, F>(result: Result<Progress<E, F>, UsageError>) -> bool {
    result matches Ok(Progress::Failed(_))
}

/// The call was turned down as the usage fault `why`.
pub open spec fn refused<T>(result: Result<T, UsageError>, why: UsageError) -> bool {
    result matches Err(e) && e == why
}

/// A state machine that drives exactly one substream from open to a terminal state.
///
/// It is parameterised over the data needed to originate the exchange, the commands
/// the owner may inject, the events surfaced to the owner and the error type.
/// What each operation does is given by a specification function (`opened`,
/// `advanced`, `injected`, `closed`); the three `*_keeps_shape` lemmas are what every
/// implementation has to prove of its own transition functions, and what the laws
/// stated for all drivers rest on.
pub trait Driver: Sized {
    type OpenInfo;

    type InEvent;

    type OutEvent;

    type Error;

    /// The driver a new exchange starts with.
    spec fn opened(open_info: Self::OpenInfo) -> Self;

    spec fn phase(&self) -> Phase;

    /// The message waiting to be written, if any.
    spec fn queued(&self) -> Option<Message>;

    /// The driver after `io` was reported, and what the owner is told.
    spec fn advanced(self, io: Io) -> (Self, Result<Progress<Self::OutEvent, Self::Error>, UsageError>);

    /// The driver after `event` was injected, and whether it was accepted.
    spec fn injected(self, event: Self::InEvent) -> (Self, Result<(), UsageError>);

    /// The driver after the owner closed it.
    spec fn closed(self) -> Self;

    fn new(open_info: Self::OpenInfo) -> (driver: Self)
        ensures
            driver == Self::opened(open_info),
    ;

    fn current_phase(&self) -> (phase: Phase)
        ensures
            phase == self.phase(),
    ;

    fn pending_message(&self) -> (message: Option<&Message>)
        ensures
            match message {
                Some(m) => self.queued() == Some(*m),
                None => self.queued() is None,
            },
    ;

    /// Takes in what happened on the substream and moves the exchange on.
    fn advance(&mut self, io: Io) -> (result: Result<Progress<Self::OutEvent, Self::Error>, UsageError>)
        ensures
            (*final(self), result) == old(self).advanced(io),
    ;

    /// Hands the driver a command of its owner.
    fn inject(&mut self, event: Self::InEvent) -> (result: Result<(), UsageError>)
        ensures
            (*final(self), result) == old(self).injected(event),
    ;

    /// Ends the exchange wherever it stands. Returns whether the driver held the
    /// substream until this call, that is, whether the owner has to let it go now.
    fn close(&mut self) -> (released: bool)
        ensures
            *final(self) == old(self).closed(),
            released == old(self).phase().holds_substream(),
    ;

    /// At most one message is in flight: one is queued only while the driver is
    /// there to write, never while it waits for the remote.
    proof fn one_message_at_a_time(self)
        ensures
            self.queued() is Some ==> self.phase() is AwaitingWrite,
    ;

    proof fn advance_keeps_shape(self, io: Io)
        ensures
            ({
                let (next, result) = self.advanced(io);
                &&& self.phase().terminal() ==> next == self && tells_done(result)
                &&& result is Err <==> !self.phase().expects(self.queued() is Some, io)
                &&& result is Err ==> next == self && refused(result, UsageError::UnexpectedIo)
                &&& io is Idle && !self.phase().steps_alone() && !self.phase().terminal() ==> next == self
                    && tells_pending(result)
                &&& self.phase().rank() <= next.phase().rank()
                &&& tells_failure(result) <==> next.phase() is Errored && !(self.phase() is Errored)
                &&& tells_done(result) <==> self.phase().terminal() || (self.phase() is Closing && io is Closed)
                &&& tells_done(result) ==> next.phase().terminal()
            }),
    ;

    proof fn inject_keeps_shape(self, event: Self::InEvent)
        ensures
            ({
                let (next, result) = self.injected(event);
                &&& result is Ok ==> self.phase() is AwaitingWrite && self.queued() is None
                    && next.phase() is AwaitingWrite && next.queued() is Some
                &&& result is Err ==> next == self && refused(result, UsageError::NotAwaitingCommand)
            }),
    ;

    proof fn close_keeps_shape(self)
        ensures
            self.phase().terminal() ==> self.closed() == self,
            !self.phase().terminal() ==> self.closed().phase() is Closed,
    ;
}

} // verus!
