//! The messages of the rendezvous exchange, as the codec hands them over.
//!
//! Framing and parsing are the codec's business. This module only fixes the closed
//! set of message variants and the classification the substream drivers rely on:
//! which kinds are requests, and which response kind answers which request.

use vstd::prelude::*;

verus! {

/// Time to live of a registration, in seconds.
pub type Ttl = u64;

/// Why a rendezvous point turned a request down.
#[derive(Debug, Clone, Copy, PartialEq, Eq)]
pub enum ErrorCode {
    InvalidNamespace,
    InvalidSignedPeerRecord,
    InvalidTtl,
    InvalidCookie,
    NotAuthorized,
    InternalError,
    Unavailable,
}

/// A registration a peer asks for.
#[derive(Debug, Clone, PartialEq, Eq)]
pub struct NewRegistration {
    pub namespace: String,
    pub record: Vec<u8>,
    pub ttl: Option<Ttl>,
}

/// A registration a rendezvous point holds.
#[derive(Debug, Clone, PartialEq, Eq)]
pub struct Registration {
    pub namespace: String,
    pub record: Vec<u8>,
    pub ttl: Ttl,
}

/// One protocol message.
#[derive(Debug, PartialEq, Eq)]
pub enum Message {
    Register(NewRegistration),
    RegisterResponse(Result<Ttl, ErrorCode>),
    Discover { namespace: Option<String>, cookie: Option<Vec<u8>>, limit: Option<Ttl> },
    DiscoverResponse(Result<(Vec<Registration>, Vec<u8>), ErrorCode>),
}

/// The kind of a message, without its fields.
#[derive(Debug, Clone, Copy, PartialEq, Eq, Structural)]
pub enum MessageKind {
    Register,
    RegisterResponse,
    Discover,
    DiscoverResponse,
}

/// A failure reported by the codec while it wrote or parsed a message.
#[derive(Debug, Clone, PartialEq, Eq)]
pub struct Error {
    pub detail: String,
}

impl MessageKind {
    /// Requests open an exchange; responses close it.
    pub open spec fn is_request(self) -> bool {
        self is Register || self is Discover
    }

    /// The one kind that answers a request of this kind; `None` for a response kind.
    pub open spec fn response(self) -> Option<MessageKind> {
        match self {
            MessageKind::Register => Some(MessageKind::RegisterResponse),
            MessageKind::Discover => Some(MessageKind::DiscoverResponse),
            MessageKind::RegisterResponse => None,
            MessageKind::DiscoverResponse => None,
        }
    }

    /// Whether a message of kind `other` is the expected answer to one of this kind.
    pub open spec fn answered_by(self, other: MessageKind) -> bool {
        self.response() == Some(other)
    }

    pub fn request(&self) -> (r: bool)
        ensures
            r == self.is_request(),
    {
        match self {
            MessageKind::Register => true,
            MessageKind::Discover => true,
            MessageKind::RegisterResponse => false,
            MessageKind::DiscoverResponse => false,
        }
    }

    pub fn expected_response(&self) -> (r: Option<MessageKind>)
        ensures
            r == self.response(),
    {
        match self {
            MessageKind::Register => Some(MessageKind::RegisterResponse),
            MessageKind::Discover => Some(MessageKind::DiscoverResponse),
            MessageKind::RegisterResponse => None,
            MessageKind::DiscoverResponse => None,
        }
    }
}

impl Message {
    pub open spec fn kind_of(self) -> MessageKind {
        match self {
            Message::Register(_) => MessageKind::Register,
            Message::RegisterResponse(_) => MessageKind::RegisterResponse,
            Message::Discover { .. } => MessageKind::Discover,
            Message::DiscoverResponse(_) => MessageKind::DiscoverResponse,
        }
    }

    pub fn kind(&self) -> (k: MessageKind)
        ensures
            k == self.kind_of(),
    {
        match self {
            Message::Register(_) => MessageKind::Register,
            Message::RegisterResponse(_) => MessageKind::RegisterResponse,
            Message::Discover { .. } => MessageKind::Discover,
            Message::DiscoverResponse(_) => MessageKind::DiscoverResponse,
        }
    }
}

/// Every request kind has exactly one answering kind, every response kind none, and
/// no kind answers two different requests.
pub proof fn response_kinds_pair_up(a: MessageKind, b: MessageKind, k: MessageKind)
    ensures
        a.is_request() <==> a.response() is Some,
        a.answered_by(k) ==> !k.is_request(),
        a.answered_by(k) && b.answered_by(k) ==> a == b,
{
}

} // verus!
