use crust::attempt::{AttemptPhase, ConnectRace, DirectConnectError, TryPeer, TryPeerError};
use crust::handshake::{accept_bootstrap, AcceptPolicy, ConnectHandshakeError};
use crust::id::{CrustUser, PaAddr, PublicId};
use crust::msg::{decode_handshake_msg, BootstrapRequest, ExternalReachability, HandshakeMessage};
use crust::wire::read_frame;
use crust::CONNECT_ATTEMPT_TIMEOUT_MS;

fn request() -> BootstrapRequest {
    BootstrapRequest {
        claimed_id: PublicId { bits: 5 },
        reachability: ExternalReachability::NotRequired,
        role: CrustUser::Node,
        nonce: Vec::new(),
    }
}

fn open_policy() -> AcceptPolicy {
    AcceptPolicy {
        expected_nonce: Vec::new(),
        whitelisted_node_ids: None,
        whitelisted_client_ids: None,
    }
}

#[test]
fn racing_candidates_second_wins_first_recorded() {
    let addr1 = PaAddr { ip: 0x0A00_0001, port: 1000 };
    let addr2 = PaAddr { ip: 0x0A00_0002, port: 2000 };
    let target = PublicId { bits: 9 };
    let mut race = ConnectRace::new();
    let mut attempt1 = TryPeer::new(addr1, target, 0);
    let mut attempt2 = TryPeer::new(addr2, target, 0);

    // the first candidate refuses the connection immediately
    match attempt1.on_connect_result(Err(DirectConnectError::Refused), &request(), 1) {
        Some(Err(e)) => race.on_attempt_failed(addr1, e),
        other => panic!("expected the connect failure, got {:?}", other),
    }
    // the race is not decided by a failure
    assert!(!race.winner.is_some());

    // the second accepts after 100 ms and the handshake completes
    let wire = match attempt2.on_connect_result(Ok(()), &request(), 100) {
        Some(Ok(frame)) => frame,
        other => panic!("expected the request frame, got {:?}", other),
    };
    let (payload, _) = read_frame(&wire, 0).expect("one whole frame");
    let received = match decode_handshake_msg(&payload) {
        Some(HandshakeMessage::BootstrapRequest(q)) => q,
        other => panic!("expected the request, got {:?}", other),
    };
    let (reply_wire, _) = accept_bootstrap(&received, &open_policy(), true, addr2, 150);
    let (reply_payload, _) = read_frame(&reply_wire, 0).expect("one whole frame");
    let reply = decode_handshake_msg(&reply_payload);
    let peer = match attempt2.on_response(reply, 200) {
        Some(Ok(peer)) => peer,
        other => panic!("expected the session, got {:?}", other.map(|r| r.err())),
    };
    assert!(race.on_attempt_succeeded(peer).is_none());

    // the session came via the second candidate; the failure map holds the first
    let session = race.finish().expect("the race was won");
    assert_eq!(session.addr(), Ok(addr2));
    // re-run the bookkeeping to inspect failures on a lost race
    let mut lost = ConnectRace::new();
    lost.on_attempt_failed(addr1, TryPeerError::Connect(DirectConnectError::Refused));
    let failures = lost.finish().err().expect("nobody won");
    assert_eq!(failures, vec![(addr1, TryPeerError::Connect(DirectConnectError::Refused))]);
}

#[test]
fn connect_timeout_marks_only_that_candidate() {
    let addr1 = PaAddr { ip: 1, port: 1 };
    let addr2 = PaAddr { ip: 2, port: 2 };
    let target = PublicId { bits: 9 };
    let mut race = ConnectRace::new();
    // the second attempt starts 5 s after the first
    let mut attempt1 = TryPeer::new(addr1, target, 0);
    let mut attempt2 = TryPeer::new(addr2, target, 5_000);

    let now = CONNECT_ATTEMPT_TIMEOUT_MS;
    // the first candidate's window has passed
    match attempt1.poll_timeout(now) {
        Some(e) => {
            assert_eq!(e, TryPeerError::TimedOut);
            race.on_attempt_failed(addr1, e);
        }
        None => panic!("the first candidate should have timed out"),
    }
    // the second candidate continues
    assert!(attempt2.poll_timeout(now).is_none());
    assert_eq!(attempt2.phase, AttemptPhase::Connecting);
    assert_eq!(race.failures, vec![(addr1, TryPeerError::TimedOut)]);
    assert!(!race.winner.is_some());
}

#[test]
fn handshake_timeout_maps_to_handshake_timed_out() {
    let mut attempt = TryPeer::new(PaAddr { ip: 1, port: 1 }, PublicId { bits: 9 }, 0);
    assert!(attempt.on_connect_result(Ok(()), &request(), 500).is_some());
    assert_eq!(attempt.phase, AttemptPhase::AwaitingResponse);
    // inside the handshake window: nothing
    assert!(attempt.poll_timeout(500 + 8_999).is_none());
    // at the deadline: the handshake failure, and the attempt is done
    assert_eq!(
        attempt.poll_timeout(500 + 9_000),
        Some(TryPeerError::Handshake(ConnectHandshakeError::TimedOut))
    );
    assert_eq!(attempt.phase, AttemptPhase::Done);
    // no session came out of it, and later events are ignored
    assert!(attempt.on_response(Some(HandshakeMessage::BootstrapGranted), 10_000).is_none());
}

#[test]
fn all_candidates_failing_reports_each_in_completion_order() {
    let addr1 = PaAddr { ip: 1, port: 1 };
    let addr2 = PaAddr { ip: 2, port: 2 };
    let mut race = ConnectRace::new();
    race.on_attempt_failed(addr2, TryPeerError::Connect(DirectConnectError::Unreachable));
    race.on_attempt_failed(addr1, TryPeerError::TimedOut);
    let failures = race.finish().err().expect("nobody won");
    assert_eq!(
        failures,
        vec![
            (addr2, TryPeerError::Connect(DirectConnectError::Unreachable)),
            (addr1, TryPeerError::TimedOut),
        ]
    );
}

#[test]
fn first_success_wins_and_later_ones_are_returned() {
    let target = PublicId { bits: 9 };
    let mut race = ConnectRace::new();
    let first = crust::peer::from_handshaken_stream(target, PaAddr { ip: 1, port: 1 }, CrustUser::Node, 10);
    let second = crust::peer::from_handshaken_stream(target, PaAddr { ip: 2, port: 2 }, CrustUser::Node, 20);
    assert!(race.on_attempt_succeeded(first).is_none());
    // the race is decided; a later session is handed back to finalize
    let returned = race.on_attempt_succeeded(second).expect("the loser comes back");
    assert_eq!(returned.addr(), Ok(PaAddr { ip: 2, port: 2 }));
    let winner = race.finish().expect("the race was won");
    assert_eq!(winner.addr(), Ok(PaAddr { ip: 1, port: 1 }));
}

#[test]
fn events_after_done_are_ignored() {
    let mut attempt = TryPeer::new(PaAddr { ip: 1, port: 1 }, PublicId { bits: 9 }, 0);
    assert_eq!(attempt.poll_timeout(CONNECT_ATTEMPT_TIMEOUT_MS), Some(TryPeerError::TimedOut));
    assert!(attempt.on_connect_result(Ok(()), &request(), 20_000).is_none());
    assert!(attempt.on_response(Some(HandshakeMessage::BootstrapGranted), 20_000).is_none());
    assert!(attempt.poll_timeout(30_000).is_none());
}
