//! The bootstrap handshake: how a connected framed stream becomes an
//! authenticated session, on either end.
//!
//! The client sends one `BootstrapRequest` and reads one reply; the
//! acceptor reads one request, weighs it against its nonce, whitelists and
//! reachability policy, and replies `BootstrapGranted` or
//! `BootstrapDenied`. The whole exchange is bounded by a wall-clock
//! deadline. The functions here take the protocol's decisions; a driver
//! moves the bytes and feeds back what arrived.

use vstd::prelude::*;
use crate::id::{CrustUser, PaAddr, PublicId};
use crate::msg::{encode_handshake_msg, handshake_msg_bytes, BootstrapDenyReason, BootstrapRequest,
    ExternalReachability, HandshakeMessage, HandshakeMessageV};
use crate::peer::{from_handshaken_stream, Peer};
use crate::wire::{frame_bytes, frame_msg};
use crate::{HANDSHAKE_TIMEOUT_MS, MAX_INSTANT_MS};

verus! {

/// Why a bootstrap handshake failed. Every one is terminal for the
/// attempt; nothing here retries.
#[derive(Clone, Copy, PartialEq, Eq, Structural, Debug)]
pub enum ConnectHandshakeError {
    /// The remote turned the request down, and said why.
    BootstrapDenied(BootstrapDenyReason),
    /// The socket failed outright.
    Io,
    /// The remote's reply was no reply at all.
    InvalidResponse,
    /// The stream failed while reading the reply.
    Read,
    /// The stream failed while sending the request.
    Write,
    /// The stream ended before any reply arrived.
    Disconnected,
    /// The deadline passed before the exchange completed.
    TimedOut,
    /// The request could not be encrypted to the remote.
    Encrypt,
    /// The reply could not be decrypted.
    Decrypt,
}

/// The instant a handshake that starts at `start` must finish by.
pub open spec fn handshake_deadline(start: u64) -> int {
    start + HANDSHAKE_TIMEOUT_MS
}

/// Whether a handshake that started at `start` has run out of time at
/// `now`.
pub fn handshake_timed_out(start: u64, now: u64) -> (r: bool)
    requires
        start <= MAX_INSTANT_MS,
    ensures
        r <==> now >= handshake_deadline(start),
{
    now >= start + HANDSHAKE_TIMEOUT_MS
}

/// The frame the client opens the handshake with: its bootstrap request,
/// serialized and framed, ready for the wire. A write failure on it maps
/// to [`ConnectHandshakeError::Write`].
pub fn bootstrap_request_frame(request: &BootstrapRequest) -> (r: Vec<u8>)
    requires
        request.nonce@.len() + 15 <= u32::MAX,
    ensures
        r@ == frame_bytes(handshake_msg_bytes(HandshakeMessageV::BootstrapRequest(request@))),
{
    let msg = HandshakeMessage::BootstrapRequest(request.clone_request());
    let bytes = encode_handshake_msg(&msg);
    frame_msg(&bytes)
}

/// Concludes the client side of the bootstrap handshake from the one reply
/// frame (or its absence). Exactly one outcome per shape of reply: a grant
/// yields the session, keyed on the identity the caller already knows and
/// with the `Node` role; a denial carries the remote's reason; end of
/// stream before any reply is `Disconnected`; any other variant — a
/// request has no business arriving here — is `InvalidResponse`. No
/// session exists on any failure.
pub fn bootstrap_connect_handshake(
    response: Option<HandshakeMessage>,
    their_uid: PublicId,
    addr: PaAddr,
    now: u64,
) -> (r: Result<Peer, ConnectHandshakeError>)
    requires
        now <= MAX_INSTANT_MS,
    ensures
        match r {
            Ok(peer) => {
                &&& response matches Some(m) && m@ is BootstrapGranted
                &&& peer.wf()
                &&& peer.open
                &&& peer.their_uid == their_uid
                &&& peer.addr == addr
                &&& peer.kind == CrustUser::Node
                &&& peer.last_send_time == now
                &&& peer.send_heartbeat_deadline == now + crate::HEARTBEAT_PERIOD_MS
                &&& peer.recv_deadline == now + crate::INACTIVITY_TIMEOUT_MS
            },
            Err(e) => match response {
                None => e == ConnectHandshakeError::Disconnected,
                Some(m) => match m@ {
                    HandshakeMessageV::BootstrapGranted => false,
                    HandshakeMessageV::BootstrapDenied(reason) => e
                        == ConnectHandshakeError::BootstrapDenied(reason),
                    HandshakeMessageV::BootstrapRequest(_) => e
                        == ConnectHandshakeError::InvalidResponse,
                },
            },
        },
{
    match response {
        None => Err(ConnectHandshakeError::Disconnected),
        Some(HandshakeMessage::BootstrapGranted) => Ok(
            from_handshaken_stream(their_uid, addr, CrustUser::Node, now),
        ),
        Some(HandshakeMessage::BootstrapDenied(reason)) => Err(
            ConnectHandshakeError::BootstrapDenied(reason),
        ),
        Some(HandshakeMessage::BootstrapRequest(_)) => Err(ConnectHandshakeError::InvalidResponse),
    }
}

/// The acceptor's standing policy: the nonce that proves acquaintance with
/// its network, who may join in which role, and whether it can probe a
/// requester's external reachability. A whitelist of `None` admits
/// everyone; one of `Some(ids)` admits exactly the ids listed — an empty
/// list admits nobody.
pub struct AcceptPolicy {
    /// The nonce every valid request must carry.
    pub expected_nonce: Vec<u8>,
    /// Which identities may join as `Node`, or `None` for all.
    pub whitelisted_node_ids: Option<Vec<PublicId>>,
    /// Which identities may join as `Client`, or `None` for all.
    pub whitelisted_client_ids: Option<Vec<PublicId>>,
}

/// Whether `ids` admits `id`: no list admits everyone, a list admits its
/// members.
pub open spec fn whitelist_admits(ids: Option<Seq<PublicId>>, id: PublicId) -> bool {
    match ids {
        None => true,
        Some(s) => s.contains(id),
    }
}

/// The whitelist the policy applies to a request of the given role.
pub open spec fn policy_whitelist(policy: AcceptPolicy, role: CrustUser) -> Option<Seq<PublicId>> {
    match role {
        CrustUser::Node => match policy.whitelisted_node_ids {
            None => None,
            Some(ids) => Some(ids@),
        },
        CrustUser::Client => match policy.whitelisted_client_ids {
            None => None,
            Some(ids) => Some(ids@),
        },
    }
}

/// The deny reason a whitelist miss earns, by role.
pub open spec fn not_whitelisted_reason(role: CrustUser) -> BootstrapDenyReason {
    match role {
        CrustUser::Node => BootstrapDenyReason::NodeNotWhitelisted,
        CrustUser::Client => BootstrapDenyReason::ClientNotWhitelisted,
    }
}

/// The acceptor's verdict on a request, given whether the requester proved
/// externally reachable (`direct_reachable` is the probe's result; it is
/// only consulted when the request demands the probe). Checks run in
/// order: nonce, whitelist, reachability; the first to fail names the
/// denial.
pub open spec fn accept_verdict(
    policy: AcceptPolicy,
    request: crate::msg::BootstrapRequestV,
    direct_reachable: bool,
) -> Option<BootstrapDenyReason> {
    if request.nonce != policy.expected_nonce@ {
        Some(BootstrapDenyReason::InvalidNonce)
    } else if !whitelist_admits(policy_whitelist(policy, request.role), request.claimed_id) {
        Some(not_whitelisted_reason(request.role))
    } else if request.reachability is Required && !direct_reachable {
        Some(BootstrapDenyReason::FailedExternalReachability)
    } else {
        None
    }
}

/// Whether the two byte vectors hold the same bytes.
fn bytes_eq(a: &Vec<u8>, b: &Vec<u8>) -> (r: bool)
    ensures
        r <==> a@ == b@,
{
    if a.len() != b.len() {
        proof {
            assert(a@.len() != b@.len());
        }
        return false;
    }
    let mut i: usize = 0;
    while i < a.len()
        invariant
            i <= a.len(),
            a@.len() == b@.len(),
            forall|j: int| 0 <= j < i ==> a@[j] == b@[j],
        decreases a.len() - i,
    {
        if a[i] != b[i] {
            return false;
        }
        i = i + 1;
    }
    proof {
        assert(a@ =~= b@);
    }
    true
}

/// Whether `ids` admits `id`.
#[verifier::loop_isolation(false)]
fn whitelist_contains(ids: &Option<Vec<PublicId>>, id: PublicId) -> (r: bool)
    ensures
        r <==> whitelist_admits(
            match ids {
                None => None,
                Some(s) => Some(s@),
            },
            id,
        ),
{
    match ids {
        None => true,
        Some(s) => {
            let mut i: usize = 0;
            while i < s.len()
                invariant
                    i <= s.len(),
                    forall|j: int| 0 <= j < i ==> s@[j] != id,
                decreases s.len() - i,
            {
                if s[i] == id {
                    proof {
                        assert(s@.contains(id)) by {
                            assert(s@[i as int] == id);
                        }
                    }
                    return true;
                }
                i = i + 1;
            }
            false
        },
    }
}

/// The acceptor's side of the handshake, decided from the one request it
/// read. A clean request earns `BootstrapGranted` and a session recording
/// the claimed identity and requested role; anything else earns
/// `BootstrapDenied` with the first reason to fail — invalid nonce, a
/// whitelist that does not admit the requester, or a failed reachability
/// probe — and no session. The reply is returned framed, ready for the
/// wire.
pub fn accept_bootstrap(
    request: &BootstrapRequest,
    policy: &AcceptPolicy,
    direct_reachable: bool,
    addr: PaAddr,
    now: u64,
) -> (r: (Vec<u8>, Option<Peer>))
    requires
        now <= MAX_INSTANT_MS,
    ensures
        match accept_verdict(*policy, request@, direct_reachable) {
            None => {
                &&& r.0@ == frame_bytes(handshake_msg_bytes(HandshakeMessageV::BootstrapGranted))
                &&& r.1 matches Some(peer) && peer.wf() && peer.open && peer.their_uid
                    == request.claimed_id && peer.kind == request.role && peer.addr == addr
                    && peer.last_send_time == now && peer.send_heartbeat_deadline == now
                    + crate::HEARTBEAT_PERIOD_MS && peer.recv_deadline == now
                    + crate::INACTIVITY_TIMEOUT_MS
            },
            Some(reason) => {
                &&& r.0@ == frame_bytes(
                    handshake_msg_bytes(HandshakeMessageV::BootstrapDenied(reason)),
                )
                &&& r.1 is None
            },
        },
{
    let verdict: Option<BootstrapDenyReason> = if !bytes_eq(&request.nonce, &policy.expected_nonce) {
        Some(BootstrapDenyReason::InvalidNonce)
    } else {
        let admitted = match request.role {
            CrustUser::Node => whitelist_contains(&policy.whitelisted_node_ids, request.claimed_id),
            CrustUser::Client => whitelist_contains(
                &policy.whitelisted_client_ids,
                request.claimed_id,
            ),
        };
        if !admitted {
            match request.role {
                CrustUser::Node => Some(BootstrapDenyReason::NodeNotWhitelisted),
                CrustUser::Client => Some(BootstrapDenyReason::ClientNotWhitelisted),
            }
        } else {
            let needs_probe = match request.reachability {
                ExternalReachability::Required => true,
                ExternalReachability::NotRequired => false,
            };
            if needs_probe && !direct_reachable {
                Some(BootstrapDenyReason::FailedExternalReachability)
            } else {
                None
            }
        }
    };
    match verdict {
        None => {
            let reply = encode_handshake_msg(&HandshakeMessage::BootstrapGranted);
            let frame = frame_msg(&reply);
            let peer = from_handshaken_stream(request.claimed_id, addr, request.role, now);
            (frame, Some(peer))
        },
        Some(reason) => {
            let reply = encode_handshake_msg(&HandshakeMessage::BootstrapDenied(reason));
            let frame = frame_msg(&reply);
            (frame, None)
        },
    }
}

} // verus!
