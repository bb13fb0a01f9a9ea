//! The rendezvous exchange over one substream: the protocol identifier, the errors
//! an exchange can end in, and the two directions of the exchange.

use vstd::prelude::*;
use libp2p_swarm::StreamProtocol;
use crate::codec;
use crate::codec::Message;

pub mod inbound;
pub mod outbound;

verus! {

/// `StreamProtocol` of libp2p-swarm, the protocol name in the form the negotiation
/// layer takes. The name a value holds is spoken of as [`protocol_name`].
#[verifier::external_type_specification]
#[verifier::external_body]
pub struct ExStreamProtocol(StreamProtocol);

/// The identifier both peers have to agree on before a substream is handed to a
/// driver of this protocol.
pub const PROTOCOL_IDENT: &'static str = "/rendezvous/1.0.0";

/// Errors that can occur while interacting with a substream. Each of them ends the
/// exchange on that substream, and only that.
#[derive(Debug, PartialEq, Eq)]
pub enum Error {
    /// A well-formed message was read whose kind is a protocol violation at this stage.
    BadMessage(Message),
    /// The codec failed to write a message to the substream.
    WriteMessage(codec::Error),
    /// The codec failed to parse what it read from the substream.
    ReadMessage(codec::Error),
    /// The substream ended where a message was due.
    UnexpectedEndOfStream,
}

/// The name that a `StreamProtocol` holds.
pub uninterp spec fn protocol_name(protocol: StreamProtocol) -> Seq<char>;

/// `StreamProtocol::new` of libp2p-swarm. It panics unless the name begins with a
/// forward slash, so only such names are let through; the value it makes holds the
/// name it was given.
#[verifier::external_body]
fn stream_protocol(name: &'static str) -> (protocol: StreamProtocol)
    requires
        name@.len() > 0,
        name@[0] == '/',
    ensures
        protocol_name(protocol) == name@,
{
    StreamProtocol::new(name)
}

/// `as_ref` of `StreamProtocol`, which hands out the name that the value holds.
#[verifier::external_body]
fn name_of(protocol: &StreamProtocol) -> (name: &str)
    ensures
        name@ == protocol_name(*protocol),
{
    protocol.as_ref()
}

/// [`PROTOCOL_IDENT`] as the value the negotiation layer takes.
pub fn protocol_ident() -> (protocol: StreamProtocol)
    ensures
        protocol_name(protocol) == PROTOCOL_IDENT@,
{
    proof {
        reveal_strlit("/rendezvous/1.0.0");
    }
    stream_protocol(PROTOCOL_IDENT)
}

/// Whether `protocol` is the identifier of this protocol, letter for letter. A
/// substream is handed to a driver only where the peers agreed on it.
pub fn is_rendezvous(protocol: &StreamProtocol) -> (agreed: bool)
    ensures
        agreed == (protocol_name(*protocol) == PROTOCOL_IDENT@),
{
    let agreed_on = name_of(protocol).to_owned();
    let ours = PROTOCOL_IDENT.to_owned();
    agreed_on == ours
}

} // verus!
