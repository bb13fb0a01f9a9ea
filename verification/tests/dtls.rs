use libp2p_core::PeerId;
use rendezvous::dtls::{DTLSAuthenticated, NonDTLSConnectionError, NON_DTLS_CONNECTION};

fn peer() -> PeerId {
    let mut bytes = vec![0x12, 0x20];
    bytes.extend(1..=32u8);
    PeerId::from_bytes(&bytes).unwrap()
}

#[test]
fn dtls_unresolved_identity_fails_the_upgrade() {
    let upgrade = DTLSAuthenticated::new();
    let result = upgrade.upgrade_inbound(None, "connection");
    assert_eq!(result, Err(NonDTLSConnectionError));
    let result = DTLSAuthenticated::new().upgrade_outbound(None, vec![1u8, 2, 3]);
    assert_eq!(result, Err(NonDTLSConnectionError));
}

#[test]
fn dtls_resolved_identity_is_handed_on_with_the_connection() {
    let result = DTLSAuthenticated::new().upgrade_inbound(Some(peer()), "connection");
    assert_eq!(result, Ok((peer(), "connection")));
    let result = DTLSAuthenticated::new().upgrade_outbound(Some(peer()), 17u32);
    assert_eq!(result, Ok((peer(), 17u32)));
}

#[test]
fn dtls_negotiates_no_protocol_name() {
    assert!(DTLSAuthenticated::new().protocol_info().is_empty());
    assert!(DTLSAuthenticated::new().clone().protocol_info().is_empty());
}

#[test]
fn dtls_error_names_the_transport() {
    assert_eq!(
        NonDTLSConnectionError.message(),
        "Tried to authenticate using `DTLSAuthenticated` for non DTLS transport connection!"
    );
    assert_eq!(NonDTLSConnectionError.clone().message(), NON_DTLS_CONNECTION);
}
