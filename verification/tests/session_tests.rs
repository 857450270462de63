use crust::id::{CrustUser, PaAddr, PublicId};
use crust::msg::{decode_peer_msg, PeerMsg};
use crust::peer::{from_handshaken_stream, PeerError, SendOutcome};
use crust::wire::read_frame;
use crust::{HEARTBEAT_PERIOD_MS, INACTIVITY_TIMEOUT_MS};

fn test_peer(now: u64) -> crust::peer::Peer {
    from_handshaken_stream(
        PublicId { bits: 42 },
        PaAddr { ip: 0x7F00_0001, port: 4000 },
        CrustUser::Node,
        now,
    )
}

#[test]
fn session_getters_report_the_handshake() {
    let peer = test_peer(0);
    assert_eq!(peer.public_id(), PublicId { bits: 42 });
    assert_eq!(peer.kind(), CrustUser::Node);
    assert_eq!(peer.addr(), Ok(PaAddr { ip: 0x7F00_0001, port: 4000 }));
    assert_eq!(peer.ip(), Ok(0x7F00_0001));
}

#[test]
fn send_round_trips_through_a_receiving_session() {
    let mut sender = test_peer(0);
    let mut receiver = test_peer(0);
    let frame = match sender.start_send(b"hello".to_vec(), 10, true) {
        Ok(SendOutcome::Sent(f)) => f,
        other => panic!("expected the frame, got {:?}", other),
    };
    let (payload, _) = read_frame(&frame, 0).expect("one whole frame");
    match receiver.on_frame(&payload, 15) {
        Ok(Some(bytes)) => assert_eq!(bytes, b"hello".to_vec()),
        other => panic!("expected the data surfaced, got {:?}", other),
    }
    assert!(receiver.open);
}

#[test]
fn last_send_instant_is_monotonic() {
    let mut peer = test_peer(0);
    assert!(matches!(peer.start_send(vec![1], 100, true), Ok(SendOutcome::Sent(_))));
    let s1 = peer.last_send_time;
    assert!(matches!(peer.start_send(vec![2], 250, true), Ok(SendOutcome::Sent(_))));
    let s2 = peer.last_send_time;
    assert_eq!(s1, 100);
    assert_eq!(s2, 250);
    assert!(s1 <= s2);
}

#[test]
fn backpressure_returns_the_payload_untouched() {
    let mut peer = test_peer(0);
    let before = peer.last_send_time;
    match peer.start_send(vec![1, 2, 3], 50, false) {
        Ok(SendOutcome::NotReady(d)) => assert_eq!(d, vec![1, 2, 3]),
        other => panic!("expected the payload back, got {:?}", other),
    }
    assert_eq!(peer.last_send_time, before);
}

#[test]
fn received_frame_resets_the_inactivity_deadline() {
    let mut peer = test_peer(0);
    assert_eq!(peer.recv_deadline, INACTIVITY_TIMEOUT_MS);
    // a data frame received at 5_000 pushes the deadline out
    let payload = vec![1u8, 9];
    assert!(matches!(peer.on_frame(&payload, 5_000), Ok(Some(_))));
    assert_eq!(peer.recv_deadline, 5_000 + INACTIVITY_TIMEOUT_MS);
    // a heartbeat received at 9_000 does too, surfacing nothing
    let heartbeat = vec![0u8];
    assert!(matches!(peer.on_frame(&heartbeat, 9_000), Ok(None)));
    assert_eq!(peer.recv_deadline, 9_000 + INACTIVITY_TIMEOUT_MS);
}

#[test]
fn heartbeats_keep_an_idle_session_alive() {
    // two sessions facing each other, no application traffic for 60 s
    let mut a = test_peer(0);
    let mut b = test_peer(0);
    let mut a_heartbeats = 0;
    let mut now = 0;
    while now <= 60_000 {
        if let Some(frame) = a.poll_heartbeat(now) {
            a_heartbeats += 1;
            let (payload, _) = read_frame(&frame, 0).expect("one whole frame");
            assert!(matches!(decode_peer_msg(&payload), Some(PeerMsg::HeartBeat)));
            assert!(matches!(b.on_frame(&payload, now), Ok(None)));
        }
        if let Some(frame) = b.poll_heartbeat(now) {
            let (payload, _) = read_frame(&frame, 0).expect("one whole frame");
            assert!(matches!(a.on_frame(&payload, now), Ok(None)));
        }
        assert!(a.check_inactivity(now).is_none());
        assert!(b.check_inactivity(now).is_none());
        now += 1_000;
    }
    // the timer fired at 20, 40 and 60 s: three heartbeats on the wire
    assert_eq!(a_heartbeats, 3);
    assert!(a.open);
    assert!(b.open);
}

#[test]
fn recent_data_send_skips_the_heartbeat() {
    let mut peer = test_peer(0);
    // data goes out at 15_000; the timer still fires at 20_000
    assert!(matches!(peer.start_send(vec![7], 15_000, true), Ok(SendOutcome::Sent(_))));
    assert!(peer.poll_heartbeat(20_000).is_none());
    // the timer was pushed out to one period past the send
    assert_eq!(peer.send_heartbeat_deadline, 15_000 + HEARTBEAT_PERIOD_MS);
    // once a whole period passes without a send, the heartbeat is owed
    assert!(peer.poll_heartbeat(35_000).is_some());
    assert_eq!(peer.last_send_time, 35_000);
}

#[test]
fn inactivity_times_the_session_out() {
    let mut peer = test_peer(0);
    // one frame arrives at 1_000; then the remote goes silent
    let heartbeat = vec![0u8];
    assert!(matches!(peer.on_frame(&heartbeat, 1_000), Ok(None)));
    // just inside the window: nothing
    assert!(peer.check_inactivity(1_000 + INACTIVITY_TIMEOUT_MS - 1).is_none());
    assert!(peer.open);
    // at 120 s after the last received frame: the session closes
    assert_eq!(
        peer.check_inactivity(1_000 + INACTIVITY_TIMEOUT_MS),
        Some(PeerError::InactivityTimeout)
    );
    assert!(!peer.open);
    // subsequent operations fail with Destroyed
    assert!(matches!(peer.start_send(vec![1], 130_000, true), Err(PeerError::Destroyed)));
    assert!(matches!(peer.on_frame(&vec![0u8], 130_000), Err(PeerError::Destroyed)));
    assert_eq!(peer.addr(), Err(PeerError::Destroyed));
}

#[test]
fn batch_of_frames_surfaces_data_in_order() {
    let mut peer = test_peer(0);
    // heartbeat, "a", heartbeat, "bc": the data passes through in order,
    // the heartbeats stay invisible
    let batch = vec![vec![0u8], vec![1u8, b'a'], vec![0u8], vec![1u8, b'b', b'c']];
    let surfaced = peer.on_frames(&batch, 2_000).expect("every frame decodes");
    assert_eq!(surfaced, vec![b"a".to_vec(), b"bc".to_vec()]);
    assert_eq!(peer.recv_deadline, 2_000 + INACTIVITY_TIMEOUT_MS);
    // a batch with garbage in it is fatal
    let mut peer = test_peer(0);
    let batch = vec![vec![1u8, b'a'], vec![9u8]];
    assert!(matches!(peer.on_frames(&batch, 100), Err(PeerError::Deserialize)));
    assert!(!peer.open);
}

#[test]
fn undecodable_frame_is_fatal() {
    let mut peer = test_peer(0);
    let garbage = vec![9u8, 9, 9];
    assert!(matches!(peer.on_frame(&garbage, 100), Err(PeerError::Deserialize)));
    assert!(!peer.open);
}

#[test]
fn end_of_stream_closes_the_session() {
    let mut peer = test_peer(0);
    peer.on_end_of_stream();
    assert!(!peer.open);
    assert!(matches!(peer.start_send(vec![1], 10, true), Err(PeerError::Destroyed)));
}
