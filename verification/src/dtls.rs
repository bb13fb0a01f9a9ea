//! The identity check on a raw connection: before any substream exists, the remote
//! peer's identity has to be known from the transport itself. A connection that
//! cannot name its peer is turned down as a whole.

use vstd::prelude::*;
use libp2p_core::PeerId;

verus! {

/// `PeerId` of libp2p-core, the identity of a peer. A value is carried through as
/// it is; nothing is known of what it holds.
#[verifier::external_type_specification]
#[verifier::external_body]
pub struct ExPeerId(PeerId);

/// The connection does not come from a transport that authenticates its peer.
#[derive(Debug, Clone, PartialEq, Eq)]
pub struct NonDTLSConnectionError;

/// The upgrade that takes the remote peer's identity from the transport.
#[derive(Debug, Clone)]
pub struct DTLSAuthenticated;

/// What [`NonDTLSConnectionError`] says of itself.
pub const NON_DTLS_CONNECTION: &'static str =
    "Tried to authenticate using `DTLSAuthenticated` for non DTLS transport connection!";

impl NonDTLSConnectionError {
    pub fn message(&self) -> (text: String)
        ensures
            text@ == NON_DTLS_CONNECTION@,
    {
        NON_DTLS_CONNECTION.to_owned()
    }
}

/// What the check comes to: the identity together with the connection where the
/// transport resolved one, the failure where it did not. The connection is handed
/// on untouched, and none is produced on failure.
pub open spec fn authenticated<C>(remote_peer_id: Option<PeerId>, socket: C) -> Result<
    (PeerId, C),
    NonDTLSConnectionError,
> {
    match remote_peer_id {
        Some(peer_id) => Ok((peer_id, socket)),
        None => Err(NonDTLSConnectionError),
    }
}

impl DTLSAuthenticated {
    pub fn new() -> (upgrade: Self)
        ensures
            upgrade == DTLSAuthenticated,
    {
        DTLSAuthenticated
    }

    /// The protocol names this upgrade negotiates: none, it runs without
    /// negotiation.
    pub fn protocol_info(&self) -> (names: Vec<&'static str>)
        ensures
            names@ == Seq::<&'static str>::empty(),
    {
        Vec::new()
    }

    /// Runs the check on a connection accepted from a remote peer, given the
    /// identity that the connection resolved for that peer, if any.
    pub fn upgrade_inbound<C>(self, remote_peer_id: Option<PeerId>, socket: C) -> (result: Result<
        (PeerId, C),
        NonDTLSConnectionError,
    >)
        ensures
            result == authenticated(remote_peer_id, socket),
    {
        match remote_peer_id {
            Some(peer_id) => Ok((peer_id, socket)),
            None => Err(NonDTLSConnectionError),
        }
    }

    /// Runs the check on a connection the local peer dialled, given the identity
    /// that the connection resolved for the remote peer, if any.
    pub fn upgrade_outbound<C>(self, remote_peer_id: Option<PeerId>, socket: C) -> (result: Result<
        (PeerId, C),
        NonDTLSConnectionError,
    >)
        ensures
            result == authenticated(remote_peer_id, socket),
    {
        match remote_peer_id {
            Some(peer_id) => Ok((peer_id, socket)),
            None => Err(NonDTLSConnectionError),
        }
    }
}

/// The check succeeds exactly where the transport resolved an identity, and a
/// connection comes out of it only then.
pub proof fn identity_decides<C>(remote_peer_id: Option<PeerId>, socket: C)
    ensures
        authenticated(remote_peer_id, socket) is Ok <==> remote_peer_id is Some,
        remote_peer_id is None ==> authenticated(remote_peer_id, socket) == Err::<
            (PeerId, C),
            NonDTLSConnectionError,
        >(NonDTLSConnectionError),
{
}

} // verus!
