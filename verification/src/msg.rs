//! The typed messages that travel inside frames, and their deterministic
//! encodings. A one-byte discriminant leads each serialized form; it is
//! self-describing exactly as far as telling the variants apart requires.
//!
//! Post-handshake frames carry a [`PeerMsg`]: a heartbeat is the
//! discriminant alone, application data is the discriminant followed by the
//! payload bytes, carried opaquely.

use vstd::prelude::*;
use crate::id::{CrustUser, PublicId};
use crate::wire::{be32, be32_val, be64, be64_val, push_be32, push_be64, push_bytes, read_be32,
    read_be64};

verus! {

/// One post-handshake frame: keep-alive, or application bytes.
#[derive(Debug)]
pub enum PeerMsg {
    HeartBeat,
    Data(Vec<u8>),
}

/// The mathematical value of a [`PeerMsg`].
pub enum PeerMsgV {
    HeartBeat,
    Data(Seq<u8>),
}

impl View for PeerMsg {
    type V = PeerMsgV;

    open spec fn view(&self) -> PeerMsgV {
        match self {
            PeerMsg::HeartBeat => PeerMsgV::HeartBeat,
            PeerMsg::Data(d) => PeerMsgV::Data(d@),
        }
    }
}

pub const HEARTBEAT_TAG: u8 = 0;

pub const DATA_TAG: u8 = 1;

/// The bytes of a serialized peer message.
pub open spec fn peer_msg_bytes(m: PeerMsgV) -> Seq<u8> {
    match m {
        PeerMsgV::HeartBeat => seq![HEARTBEAT_TAG],
        PeerMsgV::Data(d) => seq![DATA_TAG] + d,
    }
}

/// Whether `b` is the serialized form of some peer message.
pub open spec fn peer_msg_wf(b: Seq<u8>) -> bool {
    (b.len() == 1 && b[0] == HEARTBEAT_TAG) || (b.len() >= 1 && b[0] == DATA_TAG)
}

/// The peer message a well-formed byte string denotes.
pub open spec fn parse_peer_msg(b: Seq<u8>) -> PeerMsgV
    recommends
        peer_msg_wf(b),
{
    if b.len() == 1 && b[0] == HEARTBEAT_TAG {
        PeerMsgV::HeartBeat
    } else {
        PeerMsgV::Data(b.skip(1))
    }
}

/// Parsing inverts serialization: every peer message survives the wire
/// byte for byte. In particular a data payload is carried exactly, with no
/// truncation or merging.
pub proof fn lemma_peer_msg_round_trip(m: PeerMsgV)
    ensures
        peer_msg_wf(peer_msg_bytes(m)),
        parse_peer_msg(peer_msg_bytes(m)) == m,
{
    match m {
        PeerMsgV::HeartBeat => {
        },
        PeerMsgV::Data(d) => {
            assert((seq![DATA_TAG] + d).skip(1) =~= d);
        },
    }
}

/// Serializes a peer message.
pub fn encode_peer_msg(m: &PeerMsg) -> (r: Vec<u8>)
    requires
        match m {
            PeerMsg::Data(d) => d@.len() + 1 <= u32::MAX,
            PeerMsg::HeartBeat => true,
        },
    ensures
        r@ == peer_msg_bytes(m@),
        r@.len() <= u32::MAX,
{
    let mut out: Vec<u8> = Vec::new();
    match m {
        PeerMsg::HeartBeat => {
            out.push(HEARTBEAT_TAG);
        },
        PeerMsg::Data(d) => {
            out.push(DATA_TAG);
            push_bytes(&mut out, d);
        },
    }
    assert(out@ =~= peer_msg_bytes(m@));
    out
}

/// Deserializes a peer message; anything not the exact serialized form of
/// one is rejected.
pub fn decode_peer_msg(b: &Vec<u8>) -> (r: Option<PeerMsg>)
    ensures
        match r {
            Some(m) => peer_msg_wf(b@) && m@ == parse_peer_msg(b@) && peer_msg_bytes(m@) == b@,
            None => !peer_msg_wf(b@),
        },
{
    if b.len() == 1 && b[0] == HEARTBEAT_TAG {
        Some(PeerMsg::HeartBeat)
    } else if b.len() >= 1 && b[0] == DATA_TAG {
        let mut d: Vec<u8> = Vec::new();
        let mut i: usize = 1;
        while i < b.len()
            invariant
                1 <= i <= b.len(),
                d@ == b@.subrange(1, i as int),
            decreases b.len() - i,
        {
            d.push(b[i]);
            i = i + 1;
            assert(d@ =~= b@.subrange(1, i as int));
        }
        assert(d@ =~= b@.skip(1));
        assert(peer_msg_bytes(PeerMsgV::Data(d@)) =~= b@);
        Some(PeerMsg::Data(d))
    } else {
        None
    }
}

/// Why a bootstrap request was turned down.
#[derive(Clone, Copy, PartialEq, Eq, Structural, Debug)]
pub enum BootstrapDenyReason {
    NodeNotWhitelisted,
    ClientNotWhitelisted,
    FailedExternalReachability,
    InvalidNonce,
}

/// Whether the requester asks the acceptor to confirm that it is reachable
/// from outside before granting bootstrap.
#[derive(Clone, Copy, PartialEq, Eq, Structural, Debug)]
pub enum ExternalReachability {
    NotRequired,
    Required,
}

/// What a joining peer claims about itself when it asks to bootstrap.
#[derive(Debug)]
pub struct BootstrapRequest {
    /// The public identity the requester claims; the session is keyed on it.
    pub claimed_id: PublicId,
    /// Whether the acceptor must confirm external reachability first.
    pub reachability: ExternalReachability,
    /// The role the requester will take on the session.
    pub role: CrustUser,
    /// Proof of acquaintance with the network the acceptor guards.
    pub nonce: Vec<u8>,
}

/// The mathematical value of a [`BootstrapRequest`].
pub struct BootstrapRequestV {
    pub claimed_id: PublicId,
    pub reachability: ExternalReachability,
    pub role: CrustUser,
    pub nonce: Seq<u8>,
}

impl View for BootstrapRequest {
    type V = BootstrapRequestV;

    open spec fn view(&self) -> BootstrapRequestV {
        BootstrapRequestV {
            claimed_id: self.claimed_id,
            reachability: self.reachability,
            role: self.role,
            nonce: self.nonce@,
        }
    }
}

impl BootstrapRequest {
    pub fn clone_request(&self) -> (r: BootstrapRequest)
        ensures
            r@ == self@,
    {
        let mut nonce: Vec<u8> = Vec::new();
        push_bytes(&mut nonce, &self.nonce);
        let r = BootstrapRequest {
            claimed_id: self.claimed_id,
            reachability: self.reachability,
            role: self.role,
            nonce,
        };
        assert(r@.nonce =~= self@.nonce);
        r
    }
}

/// The messages of the bootstrap handshake.
#[derive(Debug)]
pub enum HandshakeMessage {
    BootstrapRequest(BootstrapRequest),
    BootstrapGranted,
    BootstrapDenied(BootstrapDenyReason),
}

/// The mathematical value of a [`HandshakeMessage`].
pub enum HandshakeMessageV {
    BootstrapRequest(BootstrapRequestV),
    BootstrapGranted,
    BootstrapDenied(BootstrapDenyReason),
}

impl View for HandshakeMessage {
    type V = HandshakeMessageV;

    open spec fn view(&self) -> HandshakeMessageV {
        match self {
            HandshakeMessage::BootstrapRequest(q) => HandshakeMessageV::BootstrapRequest(q@),
            HandshakeMessage::BootstrapGranted => HandshakeMessageV::BootstrapGranted,
            HandshakeMessage::BootstrapDenied(r) => HandshakeMessageV::BootstrapDenied(*r),
        }
    }
}

pub const GRANTED_TAG: u8 = 0;

pub const DENIED_TAG: u8 = 1;

pub const REQUEST_TAG: u8 = 2;

/// The one-byte code of a deny reason.
pub open spec fn deny_reason_byte(r: BootstrapDenyReason) -> u8 {
    match r {
        BootstrapDenyReason::NodeNotWhitelisted => 0,
        BootstrapDenyReason::ClientNotWhitelisted => 1,
        BootstrapDenyReason::FailedExternalReachability => 2,
        BootstrapDenyReason::InvalidNonce => 3,
    }
}

/// The deny reason a one-byte code denotes.
pub open spec fn byte_deny_reason(b: u8) -> BootstrapDenyReason
    recommends
        b < 4,
{
    if b == 0 {
        BootstrapDenyReason::NodeNotWhitelisted
    } else if b == 1 {
        BootstrapDenyReason::ClientNotWhitelisted
    } else if b == 2 {
        BootstrapDenyReason::FailedExternalReachability
    } else {
        BootstrapDenyReason::InvalidNonce
    }
}

/// The one-byte code of a reachability demand.
pub open spec fn reachability_byte(r: ExternalReachability) -> u8 {
    match r {
        ExternalReachability::NotRequired => 0,
        ExternalReachability::Required => 1,
    }
}

/// The one-byte code of a role.
pub open spec fn role_byte(r: CrustUser) -> u8 {
    match r {
        CrustUser::Node => 0,
        CrustUser::Client => 1,
    }
}

/// The bytes of a serialized handshake message. A request lays out its
/// fields after the discriminant: identity, reachability, role, then the
/// nonce behind its own length.
pub open spec fn handshake_msg_bytes(m: HandshakeMessageV) -> Seq<u8> {
    match m {
        HandshakeMessageV::BootstrapGranted => seq![GRANTED_TAG],
        HandshakeMessageV::BootstrapDenied(r) => seq![DENIED_TAG, deny_reason_byte(r)],
        HandshakeMessageV::BootstrapRequest(q) => seq![REQUEST_TAG] + be64(q.claimed_id.bits)
            + seq![reachability_byte(q.reachability), role_byte(q.role)] + be32(
            q.nonce.len() as u32,
        ) + q.nonce,
    }
}

/// Whether `b` is the serialized form of some handshake message.
pub open spec fn handshake_msg_wf(b: Seq<u8>) -> bool {
    (b.len() == 1 && b[0] == GRANTED_TAG) || (b.len() == 2 && b[0] == DENIED_TAG && b[1] < 4) || (
    b.len() >= 15 && b[0] == REQUEST_TAG && b[9] < 2 && b[10] < 2 && b.len() == 15 + be32_val(
        b.subrange(11, 15),
    ))
}

/// The handshake message a well-formed byte string denotes.
pub open spec fn parse_handshake_msg(b: Seq<u8>) -> HandshakeMessageV
    recommends
        handshake_msg_wf(b),
{
    if b.len() == 1 && b[0] == GRANTED_TAG {
        HandshakeMessageV::BootstrapGranted
    } else if b.len() == 2 && b[0] == DENIED_TAG {
        HandshakeMessageV::BootstrapDenied(byte_deny_reason(b[1]))
    } else {
        HandshakeMessageV::BootstrapRequest(
            BootstrapRequestV {
                claimed_id: PublicId { bits: be64_val(b.subrange(1, 9)) },
                reachability: if b[9] == 0 {
                    ExternalReachability::NotRequired
                } else {
                    ExternalReachability::Required
                },
                role: if b[10] == 0 {
                    CrustUser::Node
                } else {
                    CrustUser::Client
                },
                nonce: b.skip(15),
            },
        )
    }
}

/// Parsing inverts serialization for every handshake message.
pub proof fn lemma_handshake_msg_round_trip(m: HandshakeMessageV)
    requires
        match m {
            HandshakeMessageV::BootstrapRequest(q) => q.nonce.len() <= u32::MAX,
            _ => true,
        },
    ensures
        handshake_msg_wf(handshake_msg_bytes(m)),
        parse_handshake_msg(handshake_msg_bytes(m)) == m,
{
    match m {
        HandshakeMessageV::BootstrapGranted => {
        },
        HandshakeMessageV::BootstrapDenied(r) => {
        },
        HandshakeMessageV::BootstrapRequest(q) => {
            let b = handshake_msg_bytes(m);
            crate::wire::lemma_be64_round_trip(q.claimed_id.bits);
            crate::wire::lemma_be32_round_trip(q.nonce.len() as u32);
            assert(b.subrange(1, 9) =~= be64(q.claimed_id.bits));
            assert(b.subrange(11, 15) =~= be32(q.nonce.len() as u32));
            assert(b.skip(15) =~= q.nonce);
            let p = parse_handshake_msg(b);
            match p {
                HandshakeMessageV::BootstrapRequest(qp) => {
                    assert(qp.reachability == q.reachability);
                    assert(qp.role == q.role);
                },
                _ => {
                },
            }
        },
    }
}

/// Serializes a handshake message.
pub fn encode_handshake_msg(m: &HandshakeMessage) -> (r: Vec<u8>)
    requires
        match m {
            HandshakeMessage::BootstrapRequest(q) => q.nonce@.len() + 15 <= u32::MAX,
            _ => true,
        },
    ensures
        r@ == handshake_msg_bytes(m@),
        r@.len() <= u32::MAX,
{
    let mut out: Vec<u8> = Vec::new();
    match m {
        HandshakeMessage::BootstrapGranted => {
            out.push(GRANTED_TAG);
        },
        HandshakeMessage::BootstrapDenied(r) => {
            out.push(DENIED_TAG);
            let code: u8 = match r {
                BootstrapDenyReason::NodeNotWhitelisted => 0,
                BootstrapDenyReason::ClientNotWhitelisted => 1,
                BootstrapDenyReason::FailedExternalReachability => 2,
                BootstrapDenyReason::InvalidNonce => 3,
            };
            out.push(code);
        },
        HandshakeMessage::BootstrapRequest(q) => {
            out.push(REQUEST_TAG);
            push_be64(&mut out, q.claimed_id.bits);
            let reach: u8 = match q.reachability {
                ExternalReachability::NotRequired => 0,
                ExternalReachability::Required => 1,
            };
            out.push(reach);
            let role: u8 = match q.role {
                CrustUser::Node => 0,
                CrustUser::Client => 1,
            };
            out.push(role);
            push_be32(&mut out, q.nonce.len() as u32);
            push_bytes(&mut out, &q.nonce);
        },
    }
    assert(out@ =~= handshake_msg_bytes(m@));
    out
}

/// Deserializes a handshake message; anything not the exact serialized
/// form of one is rejected.
pub fn decode_handshake_msg(b: &Vec<u8>) -> (r: Option<HandshakeMessage>)
    ensures
        match r {
            Some(m) => handshake_msg_wf(b@) && m@ == parse_handshake_msg(b@) && handshake_msg_bytes(
                m@,
            ) == b@,
            None => !handshake_msg_wf(b@),
        },
{
    if b.len() == 1 && b[0] == GRANTED_TAG {
        Some(HandshakeMessage::BootstrapGranted)
    } else if b.len() == 2 && b[0] == DENIED_TAG && b[1] < 4 {
        let reason = if b[1] == 0 {
            BootstrapDenyReason::NodeNotWhitelisted
        } else if b[1] == 1 {
            BootstrapDenyReason::ClientNotWhitelisted
        } else if b[1] == 2 {
            BootstrapDenyReason::FailedExternalReachability
        } else {
            BootstrapDenyReason::InvalidNonce
        };
        assert(handshake_msg_bytes(HandshakeMessageV::BootstrapDenied(reason)) =~= b@);
        Some(HandshakeMessage::BootstrapDenied(reason))
    } else if b.len() >= 15 && b[0] == REQUEST_TAG && b[9] < 2 && b[10] < 2 {
        let nonce_len = read_be32(b, 11);
        if (b.len() - 15) as u64 != nonce_len as u64 {
            return None;
        }
        let claimed_id = PublicId { bits: read_be64(b, 1) };
        let reachability = if b[9] == 0 {
            ExternalReachability::NotRequired
        } else {
            ExternalReachability::Required
        };
        let role = if b[10] == 0 {
            CrustUser::Node
        } else {
            CrustUser::Client
        };
        let mut nonce: Vec<u8> = Vec::new();
        let mut i: usize = 15;
        while i < b.len()
            invariant
                15 <= i <= b.len(),
                nonce@ == b@.subrange(15, i as int),
            decreases b.len() - i,
        {
            nonce.push(b[i]);
            i = i + 1;
            assert(nonce@ =~= b@.subrange(15, i as int));
        }
        assert(nonce@ =~= b@.skip(15));
        let q = BootstrapRequest { claimed_id, reachability, role, nonce };
        let m = HandshakeMessage::BootstrapRequest(q);
        proof {
            crate::wire::lemma_be64_bytes(b@.subrange(1, 9));
            crate::wire::lemma_be32_bytes(b@.subrange(11, 15));
            assert(be64(m@->BootstrapRequest_0.claimed_id.bits) == b@.subrange(1, 9));
            assert(be32(m@->BootstrapRequest_0.nonce.len() as u32) == b@.subrange(11, 15));
            assert(handshake_msg_bytes(m@) =~= b@);
        }
        Some(m)
    } else {
        None
    }
}

} // verus!
