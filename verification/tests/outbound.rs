use rendezvous::codec;
use rendezvous::codec::{ErrorCode, Message, NewRegistration, Registration};
use rendezvous::driver::{Driver, Io, Phase, Progress, UsageError};
use rendezvous::handler::outbound::{interpret, Exchange, OpenInfo, OutEvent};
use rendezvous::handler::Error;

fn discover_peers() -> OpenInfo {
    OpenInfo::DiscoverRequest { namespace: Some("peers".to_string()), cookie: None, limit: None }
}

fn discover_peers_message() -> Message {
    Message::Discover { namespace: Some("peers".to_string()), cookie: None, limit: None }
}

fn register_peers() -> NewRegistration {
    NewRegistration { namespace: "peers".to_string(), record: vec![1, 2, 3], ttl: Some(7200) }
}

fn found() -> Vec<Registration> {
    vec![Registration { namespace: "peers".to_string(), record: vec![9, 8, 7], ttl: 300 }]
}

fn discovery_response() -> Message {
    Message::DiscoverResponse(Ok((found(), vec![42])))
}

fn broken(detail: &str) -> codec::Error {
    codec::Error { detail: detail.to_string() }
}

/// Every state an outbound exchange can be in.
fn every_state() -> Vec<Exchange> {
    vec![
        Exchange::Opening { open_info: discover_peers() },
        Exchange::Negotiated { open_info: discover_peers() },
        Exchange::SendingRequest { request: discover_peers_message() },
        Exchange::AwaitingResponse { sent: discover_peers_message() },
        Exchange::Closing,
        Exchange::Done,
        Exchange::Closed,
        Exchange::Errored,
    ]
}

fn every_io() -> Vec<Io> {
    vec![
        Io::Idle,
        Io::Negotiated,
        Io::Sent,
        Io::SendFailed(broken("write")),
        Io::Received(discovery_response()),
        Io::ReceiveFailed(broken("read")),
        Io::EndOfStream,
        Io::Closed,
    ]
}

fn awaiting_response(open_info: OpenInfo) -> Exchange {
    let mut exchange = Exchange::new(open_info);
    assert_eq!(exchange.advance(Io::Negotiated), Ok(Progress::Pending));
    assert_eq!(exchange.advance(Io::Idle), Ok(Progress::Pending));
    assert_eq!(exchange.advance(Io::Sent), Ok(Progress::Pending));
    exchange
}

#[test]
fn outbound_discover_succeeds() {
    let mut exchange = Exchange::new(discover_peers());
    assert_eq!(exchange, Exchange::Opening { open_info: discover_peers() });
    assert_eq!(exchange.current_phase(), Phase::Opening);
    assert_eq!(exchange.pending_message(), None);

    assert_eq!(exchange.advance(Io::Negotiated), Ok(Progress::Pending));
    assert_eq!(exchange, Exchange::Negotiated { open_info: discover_peers() });
    assert_eq!(exchange.current_phase(), Phase::Negotiated);

    assert_eq!(exchange.advance(Io::Idle), Ok(Progress::Pending));
    assert_eq!(exchange, Exchange::SendingRequest { request: discover_peers_message() });
    assert_eq!(exchange.current_phase(), Phase::AwaitingWrite);
    assert_eq!(exchange.pending_message(), Some(&discover_peers_message()));

    assert_eq!(exchange.advance(Io::Sent), Ok(Progress::Pending));
    assert_eq!(exchange, Exchange::AwaitingResponse { sent: discover_peers_message() });
    assert_eq!(exchange.current_phase(), Phase::AwaitingRead);
    assert_eq!(exchange.pending_message(), None);

    assert_eq!(
        exchange.advance(Io::Received(discovery_response())),
        Ok(Progress::Event(OutEvent::Discovered { registrations: found(), cookie: vec![42] }))
    );
    assert_eq!(exchange, Exchange::Closing);
    assert_eq!(exchange.current_phase(), Phase::Closing);

    assert_eq!(exchange.advance(Io::Closed), Ok(Progress::Done));
    assert_eq!(exchange, Exchange::Done);
    assert_eq!(exchange.current_phase(), Phase::Closed);

    assert_eq!(exchange.advance(Io::Idle), Ok(Progress::Done));
    assert_eq!(exchange, Exchange::Done);
}

#[test]
fn outbound_wrong_response_is_bad_message() {
    let mut exchange = awaiting_response(discover_peers());
    assert_eq!(
        exchange.advance(Io::Received(Message::RegisterResponse(Ok(7200)))),
        Ok(Progress::Failed(Error::BadMessage(Message::RegisterResponse(Ok(7200)))))
    );
    assert_eq!(exchange, Exchange::Errored);
    assert_eq!(exchange.current_phase(), Phase::Errored);
    assert_eq!(exchange.advance(Io::Idle), Ok(Progress::Done));
    assert_eq!(exchange.advance(Io::Received(discovery_response())), Ok(Progress::Done));
    assert_eq!(exchange, Exchange::Errored);
}

#[test]
fn outbound_register_succeeds() {
    let mut exchange = Exchange::new(OpenInfo::RegisterRequest(register_peers()));
    assert_eq!(exchange.advance(Io::Negotiated), Ok(Progress::Pending));
    assert_eq!(exchange.advance(Io::Idle), Ok(Progress::Pending));
    assert_eq!(exchange.pending_message(), Some(&Message::Register(register_peers())));
    assert_eq!(exchange.advance(Io::Sent), Ok(Progress::Pending));
    assert_eq!(
        exchange.advance(Io::Received(Message::RegisterResponse(Ok(3600)))),
        Ok(Progress::Event(OutEvent::Registered { namespace: "peers".to_string(), ttl: 3600 }))
    );
    assert_eq!(exchange.advance(Io::Closed), Ok(Progress::Done));
    assert_eq!(exchange, Exchange::Done);
}

#[test]
fn outbound_declined_requests_are_events() {
    let mut exchange = awaiting_response(OpenInfo::RegisterRequest(register_peers()));
    assert_eq!(
        exchange.advance(Io::Received(Message::RegisterResponse(Err(ErrorCode::NotAuthorized)))),
        Ok(Progress::Event(OutEvent::RegisterFailed {
            namespace: "peers".to_string(),
            error_code: ErrorCode::NotAuthorized,
        }))
    );
    assert_eq!(exchange, Exchange::Closing);

    let mut exchange = awaiting_response(discover_peers());
    assert_eq!(
        exchange.advance(Io::Received(Message::DiscoverResponse(Err(ErrorCode::InvalidCookie)))),
        Ok(Progress::Event(OutEvent::DiscoverFailed {
            namespace: Some("peers".to_string()),
            error_code: ErrorCode::InvalidCookie,
        }))
    );
    assert_eq!(exchange, Exchange::Closing);
}

#[test]
fn outbound_request_is_derived_from_open_info() {
    assert_eq!(discover_peers().into_request(), discover_peers_message());
    assert_eq!(
        OpenInfo::RegisterRequest(register_peers()).into_request(),
        Message::Register(register_peers())
    );
    assert_eq!(
        OpenInfo::DiscoverRequest { namespace: None, cookie: Some(vec![5]), limit: Some(10) }.into_request(),
        Message::Discover { namespace: None, cookie: Some(vec![5]), limit: Some(10) }
    );
}

#[test]
fn outbound_interpret_pairs_request_and_response() {
    assert_eq!(
        interpret(discover_peers_message(), discovery_response()),
        Ok(OutEvent::Discovered { registrations: found(), cookie: vec![42] })
    );
    assert_eq!(
        interpret(Message::Register(register_peers()), discovery_response()),
        Err(Error::BadMessage(discovery_response()))
    );
    assert_eq!(
        interpret(discover_peers_message(), discover_peers_message()),
        Err(Error::BadMessage(discover_peers_message()))
    );
    assert_eq!(
        interpret(Message::RegisterResponse(Ok(1)), Message::RegisterResponse(Ok(2))),
        Err(Error::BadMessage(Message::RegisterResponse(Ok(2))))
    );
    assert_eq!(
        interpret(discovery_response(), Message::Register(register_peers())),
        Err(Error::BadMessage(Message::Register(register_peers())))
    );
}

#[test]
fn outbound_every_unexpected_kind_is_bad_message() {
    let unexpected = vec![
        Message::Register(register_peers()),
        Message::RegisterResponse(Ok(1)),
        Message::RegisterResponse(Err(ErrorCode::Unavailable)),
        discover_peers_message(),
    ];
    for message in unexpected {
        let mut exchange = awaiting_response(discover_peers());
        let copy = match &message {
            Message::Register(_) => Message::Register(register_peers()),
            Message::RegisterResponse(answer) => Message::RegisterResponse(*answer),
            _ => discover_peers_message(),
        };
        assert_eq!(exchange.advance(Io::Received(message)), Ok(Progress::Failed(Error::BadMessage(copy))));
        assert_eq!(exchange, Exchange::Errored);
    }
}

#[test]
fn outbound_end_of_stream_is_not_a_read_failure() {
    let mut exchange = awaiting_response(discover_peers());
    assert_eq!(exchange.advance(Io::EndOfStream), Ok(Progress::Failed(Error::UnexpectedEndOfStream)));
    assert_eq!(exchange, Exchange::Errored);
}

#[test]
fn outbound_malformed_bytes_are_a_read_failure() {
    let mut exchange = awaiting_response(discover_peers());
    assert_eq!(
        exchange.advance(Io::ReceiveFailed(broken("truncated varint"))),
        Ok(Progress::Failed(Error::ReadMessage(broken("truncated varint"))))
    );
    assert_eq!(exchange, Exchange::Errored);
}

#[test]
fn outbound_write_failure_ends_the_exchange() {
    let mut exchange = Exchange::new(discover_peers());
    assert_eq!(exchange.advance(Io::Negotiated), Ok(Progress::Pending));
    assert_eq!(exchange.advance(Io::Idle), Ok(Progress::Pending));
    assert_eq!(
        exchange.advance(Io::SendFailed(broken("broken pipe"))),
        Ok(Progress::Failed(Error::WriteMessage(broken("broken pipe"))))
    );
    assert_eq!(exchange, Exchange::Errored);
    assert_eq!(exchange.pending_message(), None);
}

#[test]
fn outbound_idle_changes_nothing_while_waiting() {
    let waiting = vec![
        Exchange::Opening { open_info: discover_peers() },
        Exchange::SendingRequest { request: discover_peers_message() },
        Exchange::AwaitingResponse { sent: discover_peers_message() },
        Exchange::Closing,
    ];
    let same = vec![
        Exchange::Opening { open_info: discover_peers() },
        Exchange::SendingRequest { request: discover_peers_message() },
        Exchange::AwaitingResponse { sent: discover_peers_message() },
        Exchange::Closing,
    ];
    for (mut exchange, before) in waiting.into_iter().zip(same) {
        assert_eq!(exchange.advance(Io::Idle), Ok(Progress::Pending));
        assert_eq!(exchange, before);
    }
}

#[test]
fn outbound_unexpected_io_is_a_usage_fault() {
    let mut exchange = Exchange::new(discover_peers());
    assert_eq!(exchange.advance(Io::Sent), Err(UsageError::UnexpectedIo));
    assert_eq!(exchange.advance(Io::Received(discovery_response())), Err(UsageError::UnexpectedIo));
    assert_eq!(exchange.advance(Io::EndOfStream), Err(UsageError::UnexpectedIo));
    assert_eq!(exchange.advance(Io::Closed), Err(UsageError::UnexpectedIo));
    assert_eq!(exchange, Exchange::Opening { open_info: discover_peers() });

    let mut exchange = Exchange::Negotiated { open_info: discover_peers() };
    assert_eq!(exchange.advance(Io::Negotiated), Err(UsageError::UnexpectedIo));
    assert_eq!(exchange.advance(Io::Sent), Err(UsageError::UnexpectedIo));
    assert_eq!(exchange, Exchange::Negotiated { open_info: discover_peers() });

    let mut exchange = awaiting_response(discover_peers());
    assert_eq!(exchange.advance(Io::Sent), Err(UsageError::UnexpectedIo));
    assert_eq!(exchange.advance(Io::SendFailed(broken("late"))), Err(UsageError::UnexpectedIo));
    assert_eq!(exchange.advance(Io::Negotiated), Err(UsageError::UnexpectedIo));
    assert_eq!(exchange, Exchange::AwaitingResponse { sent: discover_peers_message() });

    let mut exchange = Exchange::Closing;
    assert_eq!(exchange.advance(Io::Received(discovery_response())), Err(UsageError::UnexpectedIo));
    assert_eq!(exchange, Exchange::Closing);
}

#[test]
fn outbound_close_releases_the_substream_once() {
    for mut exchange in every_state() {
        let phase = exchange.current_phase();
        let held = phase.is_holding_substream();
        assert_eq!(
            held,
            matches!(phase, Phase::Negotiated | Phase::AwaitingWrite | Phase::AwaitingRead | Phase::Closing)
        );
        assert_eq!(exchange.close(), held);
        assert!(exchange.current_phase().is_terminal());
        assert!(!exchange.current_phase().is_holding_substream());
        assert_eq!(exchange.pending_message(), None);
        assert!(!exchange.close());
        assert!(exchange.current_phase().is_terminal());
    }
}

#[test]
fn outbound_close_keeps_terminal_states() {
    let mut exchange = Exchange::Done;
    assert!(!exchange.close());
    assert_eq!(exchange, Exchange::Done);
    let mut exchange = Exchange::Errored;
    assert!(!exchange.close());
    assert_eq!(exchange, Exchange::Errored);
    let mut exchange = Exchange::Opening { open_info: discover_peers() };
    assert!(!exchange.close());
    assert_eq!(exchange, Exchange::Closed);
    let mut exchange = Exchange::SendingRequest { request: discover_peers_message() };
    assert!(exchange.close());
    assert_eq!(exchange, Exchange::Closed);
}

#[test]
fn outbound_terminal_states_are_absorbing() {
    for terminal in [Exchange::Done, Exchange::Closed, Exchange::Errored] {
        for io in every_io() {
            let mut exchange = match terminal {
                Exchange::Done => Exchange::Done,
                Exchange::Closed => Exchange::Closed,
                _ => Exchange::Errored,
            };
            assert_eq!(exchange.advance(io), Ok(Progress::Done));
            assert_eq!(exchange, terminal);
        }
    }
}

#[test]
fn outbound_surfaces_at_most_one_thing() {
    for start in 0..every_state().len() {
        for first in 0..every_io().len() {
            for second in 0..every_io().len() {
                for third in 0..every_io().len() {
                    let mut exchange = every_state().swap_remove(start);
                    let mut surfaced = 0;
                    for index in [first, second, third] {
                        match exchange.advance(every_io().swap_remove(index)) {
                            Ok(Progress::Event(_)) | Ok(Progress::Failed(_)) => surfaced += 1,
                            _ => {}
                        }
                    }
                    assert!(surfaced <= 1);
                }
            }
        }
    }
}

#[test]
fn outbound_releases_the_substream_at_most_once_in_any_run() {
    // Every run of three steps from every state; step 8 of a run is a close.
    for start in 0..every_state().len() {
        for run in 0..9usize.pow(3) {
            let mut exchange = every_state().swap_remove(start);
            let mut released = 0;
            let mut failed = false;
            for position in 0..3 {
                let choice = run / 9usize.pow(position) % 9;
                let held = exchange.current_phase().is_holding_substream();
                if choice == 8 {
                    assert_eq!(exchange.close(), held);
                } else {
                    match exchange.advance(every_io().swap_remove(choice)) {
                        Ok(Progress::Failed(_)) => {
                            assert!(!failed);
                            failed = true;
                        }
                        Ok(Progress::Event(_)) => assert!(!failed),
                        _ => {}
                    }
                }
                let holds = exchange.current_phase().is_holding_substream();
                if held && !holds {
                    released += 1;
                    assert!(exchange.current_phase().is_terminal());
                }
                if failed {
                    assert_eq!(exchange, Exchange::Errored);
                }
            }
            assert!(released <= 1);
        }
    }
}
