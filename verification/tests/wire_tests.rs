use crust::msg::{
    decode_handshake_msg, decode_peer_msg, encode_handshake_msg, encode_peer_msg,
    BootstrapDenyReason, BootstrapRequest, ExternalReachability, HandshakeMessage, PeerMsg,
};
use crust::id::{CrustUser, PublicId};
use crust::wire::{frame_msg, push_be16, push_be32, push_be64, read_be16, read_be32, read_be64,
    read_frame};

#[test]
fn be_integers_round_trip() {
    let mut buf: Vec<u8> = Vec::new();
    push_be16(&mut buf, 0xABCD);
    push_be32(&mut buf, 0xDEAD_BEEF);
    push_be64(&mut buf, 0x0123_4567_89AB_CDEF);
    assert_eq!(buf, vec![0xAB, 0xCD, 0xDE, 0xAD, 0xBE, 0xEF, 0x01, 0x23, 0x45, 0x67, 0x89, 0xAB, 0xCD, 0xEF]);
    assert_eq!(read_be16(&buf, 0), 0xABCD);
    assert_eq!(read_be32(&buf, 2), 0xDEAD_BEEF);
    assert_eq!(read_be64(&buf, 6), 0x0123_4567_89AB_CDEF);
}

#[test]
fn frame_prefixes_length_big_endian() {
    let msg = vec![9u8, 8, 7];
    let framed = frame_msg(&msg);
    assert_eq!(framed, vec![0, 0, 0, 3, 9, 8, 7]);
}

#[test]
fn read_frame_returns_payload_and_next_offset() {
    let first = frame_msg(&vec![1u8, 2]);
    let second = frame_msg(&vec![3u8]);
    let mut buf = first.clone();
    buf.extend_from_slice(&second);
    let (payload, next) = read_frame(&buf, 0).expect("first frame is complete");
    assert_eq!(payload, vec![1, 2]);
    assert_eq!(next, 6);
    let (payload2, next2) = read_frame(&buf, next).expect("second frame is complete");
    assert_eq!(payload2, vec![3]);
    assert_eq!(next2, buf.len());
}

#[test]
fn read_frame_rejects_partial_frames() {
    // a frame whose declared length exceeds what arrived
    let buf = vec![0u8, 0, 0, 5, 1, 2];
    assert!(read_frame(&buf, 0).is_none());
    // fewer than four bytes of prefix
    let buf = vec![0u8, 0];
    assert!(read_frame(&buf, 0).is_none());
}

#[test]
fn peer_msg_heartbeat_is_discriminant_only() {
    let bytes = encode_peer_msg(&PeerMsg::HeartBeat);
    assert_eq!(bytes, vec![0]);
    assert!(matches!(decode_peer_msg(&bytes), Some(PeerMsg::HeartBeat)));
}

#[test]
fn peer_msg_data_round_trips() {
    let bytes = encode_peer_msg(&PeerMsg::Data(vec![10, 20, 30]));
    assert_eq!(bytes, vec![1, 10, 20, 30]);
    match decode_peer_msg(&bytes) {
        Some(PeerMsg::Data(d)) => assert_eq!(d, vec![10, 20, 30]),
        other => panic!("expected the data back, got {:?}", other),
    }
    // empty payload still round-trips
    let bytes = encode_peer_msg(&PeerMsg::Data(Vec::new()));
    assert_eq!(bytes, vec![1]);
    match decode_peer_msg(&bytes) {
        Some(PeerMsg::Data(d)) => assert!(d.is_empty()),
        other => panic!("expected empty data, got {:?}", other),
    }
}

#[test]
fn peer_msg_rejects_malformed_bytes() {
    assert!(decode_peer_msg(&Vec::new()).is_none());
    // a heartbeat with trailing bytes is not a message
    assert!(decode_peer_msg(&vec![0, 1]).is_none());
    // an unknown discriminant is not a message
    assert!(decode_peer_msg(&vec![7]).is_none());
}

#[test]
fn handshake_granted_and_denied_round_trip() {
    let bytes = encode_handshake_msg(&HandshakeMessage::BootstrapGranted);
    assert_eq!(bytes, vec![0]);
    assert!(matches!(
        decode_handshake_msg(&bytes),
        Some(HandshakeMessage::BootstrapGranted)
    ));
    for reason in [
        BootstrapDenyReason::NodeNotWhitelisted,
        BootstrapDenyReason::ClientNotWhitelisted,
        BootstrapDenyReason::FailedExternalReachability,
        BootstrapDenyReason::InvalidNonce,
    ] {
        let bytes = encode_handshake_msg(&HandshakeMessage::BootstrapDenied(reason));
        match decode_handshake_msg(&bytes) {
            Some(HandshakeMessage::BootstrapDenied(r)) => assert_eq!(r, reason),
            other => panic!("expected the denial back, got {:?}", other),
        }
    }
}

#[test]
fn handshake_request_round_trips() {
    let request = BootstrapRequest {
        claimed_id: PublicId { bits: 0x1122_3344_5566_7788 },
        reachability: ExternalReachability::Required,
        role: CrustUser::Client,
        nonce: vec![5, 6, 7, 8],
    };
    let bytes = encode_handshake_msg(&HandshakeMessage::BootstrapRequest(request));
    assert_eq!(bytes.len(), 15 + 4);
    match decode_handshake_msg(&bytes) {
        Some(HandshakeMessage::BootstrapRequest(q)) => {
            assert_eq!(q.claimed_id, PublicId { bits: 0x1122_3344_5566_7788 });
            assert_eq!(q.reachability, ExternalReachability::Required);
            assert_eq!(q.role, CrustUser::Client);
            assert_eq!(q.nonce, vec![5, 6, 7, 8]);
        }
        other => panic!("expected the request back, got {:?}", other),
    }
}

#[test]
fn handshake_rejects_malformed_bytes() {
    assert!(decode_handshake_msg(&Vec::new()).is_none());
    // an out-of-range deny reason
    assert!(decode_handshake_msg(&vec![1, 4]).is_none());
    // a granted with trailing bytes
    assert!(decode_handshake_msg(&vec![0, 0]).is_none());
    // a request whose nonce length disagrees with what follows
    let request = BootstrapRequest {
        claimed_id: PublicId { bits: 1 },
        reachability: ExternalReachability::NotRequired,
        role: CrustUser::Node,
        nonce: vec![9],
    };
    let mut bytes = encode_handshake_msg(&HandshakeMessage::BootstrapRequest(request));
    bytes.push(0);
    assert!(decode_handshake_msg(&bytes).is_none());
    // a truncated request
    bytes.truncate(10);
    assert!(decode_handshake_msg(&bytes).is_none());
}
