//! A live session with a remote peer: framed data exchange, heartbeating,
//! and inactivity detection.
//!
//! A [`Peer`] exists only downstream of a completed handshake
//! ([`from_handshaken_stream`] is how the handshake engine makes one). Its
//! owner drives it with the clock and with stream events: each tick first
//! services the heartbeat timer, then feeds in whatever frames arrived,
//! then checks the inactivity timer. Instants are milliseconds on a
//! monotone wall clock.

use vstd::prelude::*;
use crate::id::{CrustUser, PaAddr, PublicId};
use crate::msg::{peer_msg_bytes, peer_msg_wf, parse_peer_msg, decode_peer_msg, encode_peer_msg,
    PeerMsg, PeerMsgV};
use crate::wire::{frame_bytes, frame_msg};
use crate::{HEARTBEAT_PERIOD_MS, INACTIVITY_TIMEOUT_MS, MAX_INSTANT_MS};

verus! {

/// Errors a session surfaces. `InactivityTimeout` is the only one the
/// session synthesizes itself; the rest stand for failures of the stream
/// under it, and `Destroyed` answers any operation on a closed session.
#[derive(Clone, Copy, PartialEq, Eq, Structural, Debug)]
pub enum PeerError {
    Destroyed,
    Serialisation,
    Io,
    Read,
    Write,
    InactivityTimeout,
    Encrypt,
    Decrypt,
    Deserialize,
}

/// What a send attempt came to: the frame to put on the wire, or the
/// payload handed back because the stream had no room.
#[derive(Debug)]
pub enum SendOutcome {
    /// The frame to write; the payload is inside it, intact.
    Sent(Vec<u8>),
    /// Back-pressure: the caller keeps the payload and resubmits it.
    NotReady(Vec<u8>),
}

/// An authenticated session with a remote peer.
#[derive(Debug)]
pub struct Peer {
    /// The remote's authenticated identity.
    pub their_uid: PublicId,
    /// The remote's role on this session.
    pub kind: CrustUser,
    /// The transport address the stream is connected to.
    pub addr: PaAddr,
    /// Active until torn down; no operation works on a closed session.
    pub open: bool,
    /// When this side last put a frame on the wire.
    pub last_send_time: u64,
    /// When the send-heartbeat timer next fires.
    pub send_heartbeat_deadline: u64,
    /// When the recv-inactivity timer fires; every received frame pushes it
    /// out to `now + INACTIVITY_TIMEOUT_MS`.
    pub recv_deadline: u64,
}

impl Peer {
    /// The session's timers make sense: instants are in range and the
    /// heartbeat timer never fires later than one period after the last
    /// send, so an idle session is always caught.
    pub open spec fn wf(&self) -> bool {
        self.last_send_time <= MAX_INSTANT_MS && self.send_heartbeat_deadline
            <= self.last_send_time + HEARTBEAT_PERIOD_MS && self.recv_deadline <= MAX_INSTANT_MS
            + INACTIVITY_TIMEOUT_MS
    }

    /// Whether the heartbeat policy owes a frame at `now`: the timer fired
    /// and nothing has been sent for a whole period.
    pub open spec fn heartbeat_due(&self, now: u64) -> bool {
        now >= self.send_heartbeat_deadline && now >= self.last_send_time + HEARTBEAT_PERIOD_MS
    }
}

/// Constructs a session over a stream whose handshake just completed: both
/// timers start one full period and one full window from `now`.
pub fn from_handshaken_stream(their_uid: PublicId, addr: PaAddr, kind: CrustUser, now: u64) -> (r:
    Peer)
    requires
        now <= MAX_INSTANT_MS,
    ensures
        r.wf(),
        r.open,
        r.their_uid == their_uid,
        r.addr == addr,
        r.kind == kind,
        r.last_send_time == now,
        r.send_heartbeat_deadline == now + HEARTBEAT_PERIOD_MS,
        r.recv_deadline == now + INACTIVITY_TIMEOUT_MS,
{
    Peer {
        their_uid,
        kind,
        addr,
        open: true,
        last_send_time: now,
        send_heartbeat_deadline: now + HEARTBEAT_PERIOD_MS,
        recv_deadline: now + INACTIVITY_TIMEOUT_MS,
    }
}

impl Peer {
    /// The remote's identity.
    pub fn public_id(&self) -> (r: PublicId)
        ensures
            r == self.their_uid,
    {
        self.their_uid
    }

    /// The remote's role.
    pub fn kind(&self) -> (r: CrustUser)
        ensures
            r == self.kind,
    {
        self.kind
    }

    /// The remote's transport address.
    pub fn addr(&self) -> (r: Result<PaAddr, PeerError>)
        ensures
            self.open ==> r == Ok::<PaAddr, PeerError>(self.addr),
            !self.open ==> r == Err::<PaAddr, PeerError>(PeerError::Destroyed),
    {
        if self.open {
            Ok(self.addr)
        } else {
            Err(PeerError::Destroyed)
        }
    }

    /// The remote's IP address.
    pub fn ip(&self) -> (r: Result<u32, PeerError>)
        ensures
            self.open ==> r == Ok::<u32, PeerError>(self.addr.ip),
            !self.open ==> r == Err::<u32, PeerError>(PeerError::Destroyed),
    {
        if self.open {
            Ok(self.addr.ip)
        } else {
            Err(PeerError::Destroyed)
        }
    }

    /// Hands a payload to the stream as one data frame. If the stream had
    /// room, the frame carries exactly the payload's bytes and the last-send
    /// instant moves up to `now`; under back-pressure nothing changes and
    /// the caller gets the payload back to resubmit — it is never dropped.
    pub fn start_send(&mut self, data: Vec<u8>, now: u64, stream_ready: bool) -> (r: Result<
        SendOutcome,
        PeerError,
    >)
        requires
            old(self).wf(),
            now <= MAX_INSTANT_MS,
            now >= old(self).last_send_time,
            data@.len() + 1 <= u32::MAX,
        ensures
            final(self).wf(),
            !old(self).open ==> r === Err(PeerError::Destroyed) && *final(self) == *old(self),
            old(self).open && stream_ready ==> match r {
                Ok(SendOutcome::Sent(f)) => f@ == frame_bytes(peer_msg_bytes(PeerMsgV::Data(data@)))
                    && *final(self) == Peer { last_send_time: now, ..*old(self) },
                _ => false,
            },
            old(self).open && !stream_ready ==> match r {
                Ok(SendOutcome::NotReady(d)) => d == data && *final(self) == *old(self),
                _ => false,
            },
    {
        if !self.open {
            return Err(PeerError::Destroyed);
        }
        if !stream_ready {
            return Ok(SendOutcome::NotReady(data));
        }
        let msg = PeerMsg::Data(data);
        let bytes = encode_peer_msg(&msg);
        let frame = frame_msg(&bytes);
        self.last_send_time = now;
        Ok(SendOutcome::Sent(frame))
    }

    /// Services the send-heartbeat timer. When it has fired and the session
    /// has also been idle a whole period, one heartbeat frame is owed on
    /// the wire and the last-send instant moves up; when a data send got
    /// there first, the timer is merely pushed out to one period past that
    /// send. Either way the timer is re-armed and never left behind.
    pub fn poll_heartbeat(&mut self, now: u64) -> (r: Option<Vec<u8>>)
        requires
            old(self).wf(),
            now <= MAX_INSTANT_MS,
            now >= old(self).last_send_time,
        ensures
            final(self).wf(),
            !old(self).open ==> r is None && *final(self) == *old(self),
            old(self).open ==> {
                &&& r is Some <==> old(self).heartbeat_due(now)
                &&& old(self).heartbeat_due(now) ==> (r matches Some(f) && f@ == frame_bytes(
                    peer_msg_bytes(PeerMsgV::HeartBeat),
                ) && *final(self) == (Peer {
                    last_send_time: now,
                    send_heartbeat_deadline: (now + HEARTBEAT_PERIOD_MS) as u64,
                    ..*old(self)
                }))
                &&& (now >= old(self).send_heartbeat_deadline && !old(self).heartbeat_due(now))
                    ==> *final(self) == (Peer {
                    send_heartbeat_deadline: (old(self).last_send_time
                        + HEARTBEAT_PERIOD_MS) as u64,
                    ..*old(self)
                })
                &&& now < old(self).send_heartbeat_deadline ==> *final(self) == *old(self)
            },
    {
        if !self.open {
            return None;
        }
        if now < self.send_heartbeat_deadline {
            return None;
        }
        if now >= self.last_send_time + HEARTBEAT_PERIOD_MS {
            self.last_send_time = now;
            self.send_heartbeat_deadline = now + HEARTBEAT_PERIOD_MS;
            let bytes = encode_peer_msg(&PeerMsg::HeartBeat);
            let frame = frame_msg(&bytes);
            Some(frame)
        } else {
            self.send_heartbeat_deadline = self.last_send_time + HEARTBEAT_PERIOD_MS;
            None
        }
    }

    /// Takes one frame payload the stream delivered at `now`. Receiving
    /// anything — heartbeat or data — pushes the inactivity deadline out to
    /// `now + INACTIVITY_TIMEOUT_MS`. A heartbeat is absorbed; a data frame
    /// surfaces exactly the bytes the remote sent; bytes that decode as
    /// neither are fatal and close the session.
    pub fn on_frame(&mut self, payload: &Vec<u8>, now: u64) -> (r: Result<Option<Vec<u8>>,
        PeerError,
    >)
        requires
            old(self).wf(),
            now <= MAX_INSTANT_MS,
        ensures
            final(self).wf(),
            !old(self).open ==> r === Err(PeerError::Destroyed) && *final(self) == *old(self),
            old(self).open ==> match r {
                Ok(out) => {
                    &&& peer_msg_wf(payload@)
                    &&& *final(self) == (Peer {
                        recv_deadline: (now + INACTIVITY_TIMEOUT_MS) as u64,
                        ..*old(self)
                    })
                    &&& match out {
                        Some(b) => parse_peer_msg(payload@) == PeerMsgV::Data(b@),
                        None => parse_peer_msg(payload@) == PeerMsgV::HeartBeat,
                    }
                },
                Err(e) => {
                    &&& !peer_msg_wf(payload@)
                    &&& e == PeerError::Deserialize
                    &&& !final(self).open
                },
            },
    {
        if !self.open {
            return Err(PeerError::Destroyed);
        }
        match decode_peer_msg(payload) {
            None => {
                self.open = false;
                Err(PeerError::Deserialize)
            },
            Some(PeerMsg::HeartBeat) => {
                self.recv_deadline = now + INACTIVITY_TIMEOUT_MS;
                Ok(None)
            },
            Some(PeerMsg::Data(d)) => {
                self.recv_deadline = now + INACTIVITY_TIMEOUT_MS;
                Ok(Some(d))
            },
        }
    }

    /// Takes, in arrival order, every frame payload the stream delivered in
    /// one tick. What surfaces is exactly the batch's data payloads, in the
    /// order the remote sent them — never reordered, never merged — with
    /// the heartbeats in between invisible. Receiving anything pushes the
    /// inactivity deadline out; the first undecodable payload is fatal.
    pub fn on_frames(&mut self, payloads: &Vec<Vec<u8>>, now: u64) -> (r: Result<Vec<Vec<u8>>,
        PeerError,
    >)
        requires
            old(self).wf(),
            now <= MAX_INSTANT_MS,
        ensures
            final(self).wf(),
            !old(self).open ==> r === Err(PeerError::Destroyed) && *final(self) == *old(self),
            old(self).open && all_frames_wf(payloads.deep_view()) ==> match r {
                Ok(out) => {
                    &&& out.deep_view() == surfaced_data(payloads.deep_view())
                    &&& payloads@.len() > 0 ==> *final(self) == (Peer {
                        recv_deadline: (now + INACTIVITY_TIMEOUT_MS) as u64,
                        ..*old(self)
                    })
                    &&& payloads@.len() == 0 ==> *final(self) == *old(self)
                },
                Err(_) => false,
            },
            old(self).open && !all_frames_wf(payloads.deep_view()) ==> r === Err(
                PeerError::Deserialize,
            ) && !final(self).open,
    {
        if !self.open {
            return Err(PeerError::Destroyed);
        }
        let mut out: Vec<Vec<u8>> = Vec::new();
        let mut k: usize = 0;
        while k < payloads.len()
            invariant
                old(self).wf(),
                old(self).open,
                now <= MAX_INSTANT_MS,
                k <= payloads@.len(),
                self.open,
                self.wf(),
                k == 0 ==> *self == *old(self),
                k > 0 ==> *self == (Peer {
                    recv_deadline: (now + INACTIVITY_TIMEOUT_MS) as u64,
                    ..*old(self)
                }),
                forall|j: int| 0 <= j < k ==> peer_msg_wf(payloads.deep_view()[j]),
                out.deep_view() == surfaced_data(payloads.deep_view().take(k as int)),
            decreases payloads@.len() - k,
        {
            let ghost processed = payloads.deep_view().take(k as int);
            let ghost p = payloads.deep_view()[k as int];
            proof {
                lemma_bytes_deep_view(payloads@[k as int]);
                assert(p == payloads@[k as int]@);
            }
            match self.on_frame(&payloads[k], now) {
                Err(e) => {
                    proof {
                        assert(!peer_msg_wf(payloads.deep_view()[k as int]));
                    }
                    return Err(e);
                },
                Ok(None) => {
                    proof {
                        lemma_surfaced_data_push(processed, p);
                        assert(payloads.deep_view().take(k + 1) =~= processed.push(p));
                        assert(out.deep_view() =~= surfaced_data(
                            payloads.deep_view().take(k + 1),
                        ));
                    }
                },
                Ok(Some(d)) => {
                    proof {
                        lemma_surfaced_data_push(processed, p);
                        assert(payloads.deep_view().take(k + 1) =~= processed.push(p));
                    }
                    let ghost out_before = out.deep_view();
                    let ghost dv = d@;
                    out.push(d);
                    proof {
                        assert(out@[out@.len() - 1]@ == dv);
                        lemma_bytes_deep_view(out@[out@.len() - 1]);
                        assert(out.deep_view() =~= out_before + seq![dv]);
                        assert(out.deep_view() =~= surfaced_data(
                            payloads.deep_view().take(k + 1),
                        ));
                    }
                },
            }
            k = k + 1;
        }
        proof {
            assert(payloads.deep_view().take(payloads@.len() as int) =~= payloads.deep_view());
        }
        Ok(out)
    }

    /// The stream ended gracefully: the session closes and emits nothing
    /// further.
    pub fn on_end_of_stream(&mut self)
        ensures
            !final(self).open,
            *final(self) == (Peer { open: false, ..*old(self) }),
    {
        self.open = false;
    }

    /// Checks the recv-inactivity timer. A session whose deadline has
    /// passed closes with `InactivityTimeout`; one still inside its window
    /// is untouched.
    pub fn check_inactivity(&mut self, now: u64) -> (r: Option<PeerError>)
        requires
            old(self).wf(),
        ensures
            final(self).wf(),
            !old(self).open ==> r is None && *final(self) == *old(self),
            old(self).open && now >= old(self).recv_deadline ==> r === Some(
                PeerError::InactivityTimeout,
            ) && *final(self) == (Peer { open: false, ..*old(self) }),
            old(self).open && now < old(self).recv_deadline ==> r is None && *final(self) == *old(
                self,
            ),
    {
        if !self.open {
            return None;
        }
        if now >= self.recv_deadline {
            self.open = false;
            Some(PeerError::InactivityTimeout)
        } else {
            None
        }
    }

    /// Gracefully shuts the session down: pending writes are for the owner
    /// to flush; the session itself emits nothing further.
    pub fn finalize(self) {
    }
}

/// Whether every payload in a batch is the serialized form of some peer
/// message.
pub open spec fn all_frames_wf(ps: Seq<Seq<u8>>) -> bool {
    forall|k: int| 0 <= k < ps.len() ==> peer_msg_wf(ps[k])
}

/// The data payloads a batch of frames surfaces, in arrival order:
/// heartbeats drop out, data bytes pass through untouched.
pub open spec fn surfaced_data(ps: Seq<Seq<u8>>) -> Seq<Seq<u8>>
    recommends
        all_frames_wf(ps),
    decreases ps.len(),
{
    if ps.len() == 0 {
        Seq::empty()
    } else {
        let rest = surfaced_data(ps.skip(1));
        match parse_peer_msg(ps[0]) {
            PeerMsgV::Data(d) => seq![d] + rest,
            PeerMsgV::HeartBeat => rest,
        }
    }
}

/// The bytes of a byte vector, seen deeply or shallowly, are the same.
proof fn lemma_bytes_deep_view(v: Vec<u8>)
    ensures
        v.deep_view() == v@,
{
    assert(v.deep_view() =~= v@);
}

/// One more frame at the end surfaces its data at the end, or nothing.
proof fn lemma_surfaced_data_push(ps: Seq<Seq<u8>>, p: Seq<u8>)
    ensures
        surfaced_data(ps.push(p)) == match parse_peer_msg(p) {
            PeerMsgV::Data(d) => surfaced_data(ps) + seq![d],
            PeerMsgV::HeartBeat => surfaced_data(ps),
        },
    decreases ps.len(),
{
    assert(surfaced_data(Seq::<Seq<u8>>::empty()) == Seq::<Seq<u8>>::empty());
    if ps.len() == 0 {
        assert(ps.push(p)[0] == p);
        assert(ps.push(p).skip(1) =~= Seq::<Seq<u8>>::empty());
        match parse_peer_msg(p) {
            PeerMsgV::Data(d) => {
                assert(surfaced_data(ps.push(p)) == seq![d] + surfaced_data(
                    Seq::<Seq<u8>>::empty(),
                ));
                assert(seq![d] + Seq::<Seq<u8>>::empty() =~= surfaced_data(ps) + seq![d]);
            },
            PeerMsgV::HeartBeat => {
                assert(surfaced_data(ps.push(p)) == surfaced_data(Seq::<Seq<u8>>::empty()));
            },
        }
    } else {
        lemma_surfaced_data_push(ps.skip(1), p);
        assert(ps.push(p).skip(1) =~= ps.skip(1).push(p));
        assert(ps.push(p)[0] == ps[0]);
        match parse_peer_msg(ps[0]) {
            PeerMsgV::Data(d0) => {
                assert(surfaced_data(ps.push(p)) == seq![d0] + surfaced_data(ps.skip(1).push(p)));
                assert(surfaced_data(ps) == seq![d0] + surfaced_data(ps.skip(1)));
                match parse_peer_msg(p) {
                    PeerMsgV::Data(d) => {
                        vstd::seq_lib::lemma_concat_associative(
                            seq![d0],
                            surfaced_data(ps.skip(1)),
                            seq![d],
                        );
                    },
                    PeerMsgV::HeartBeat => {
                    },
                }
            },
            PeerMsgV::HeartBeat => {
                assert(surfaced_data(ps.push(p)) == surfaced_data(ps.skip(1).push(p)));
                assert(surfaced_data(ps) == surfaced_data(ps.skip(1)));
            },
        }
    }
}

/// What an accepted send records: the last-send instant becomes the send's
/// own wall-clock time.
pub open spec fn send_recorded_at(post: Peer, t: u64) -> bool {
    post.last_send_time == t
}

/// Law: across any two successive accepted sends at wall-clock times
/// `t1 <= t2`, the recorded last-send instant is monotone.
pub proof fn lemma_last_send_monotonic(s1: Peer, s2: Peer, t1: u64, t2: u64)
    requires
        send_recorded_at(s1, t1),
        send_recorded_at(s2, t2),
        t1 <= t2,
    ensures
        s1.last_send_time <= s2.last_send_time,
{
}

/// Law: a well-formed session that has idled a whole heartbeat period owes
/// a heartbeat the moment its timer is polled — the timer cannot still be
/// pending, because it never fires later than one period after the last
/// send.
pub proof fn lemma_heartbeat_when_idle(s: Peer, now: u64)
    requires
        s.wf(),
        now >= s.last_send_time + HEARTBEAT_PERIOD_MS,
    ensures
        s.heartbeat_due(now),
{
}

/// Law: a data payload crosses the session intact. The frame an accepted
/// send puts on the wire is read back as one frame whose payload parses as
/// a data message carrying exactly the bytes given — no truncation, no
/// merging.
pub proof fn lemma_send_recv_round_trip(data: Seq<u8>, tail: Seq<u8>)
    requires
        data.len() + 1 <= u32::MAX,
    ensures
        ({
            let on_wire = frame_bytes(peer_msg_bytes(PeerMsgV::Data(data))) + tail;
            &&& crate::wire::frame_complete_at(on_wire, 0)
            &&& peer_msg_wf(crate::wire::frame_payload_at(on_wire, 0))
            &&& parse_peer_msg(crate::wire::frame_payload_at(on_wire, 0)) == PeerMsgV::Data(data)
        }),
{
    let msg = peer_msg_bytes(PeerMsgV::Data(data));
    crate::wire::lemma_frame_round_trip(msg, tail);
    crate::msg::lemma_peer_msg_round_trip(PeerMsgV::Data(data));
}

} // verus!
