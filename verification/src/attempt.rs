//! Racing connection attempts toward one target identity.
//!
//! Each candidate address gets a [`TryPeer`]: open a transport connection
//! under a per-attempt deadline, then run the bootstrap handshake under its
//! own deadline. A [`ConnectRace`] aggregates the attempts: the first to
//! produce a session wins and the rest are cancelled; if every one fails,
//! the caller receives each address paired with why, in the order the
//! attempts completed.

use vstd::prelude::*;
use crate::handshake::{bootstrap_connect_handshake, bootstrap_request_frame,
    ConnectHandshakeError};
use crate::id::{PaAddr, PublicId};
use crate::msg::{handshake_msg_bytes, BootstrapRequest, HandshakeMessage, HandshakeMessageV};
use crate::peer::Peer;
use crate::wire::frame_bytes;
use crate::{CONNECT_ATTEMPT_TIMEOUT_MS, HANDSHAKE_TIMEOUT_MS, MAX_INSTANT_MS};

verus! {

/// Why the transport failed to connect to one address.
#[derive(Clone, Copy, PartialEq, Eq, Structural, Debug)]
pub enum DirectConnectError {
    Refused,
    Unreachable,
    Reset,
    Io,
}

/// Why one candidate failed: the connect deadline passed, the transport
/// failed, or the handshake did.
#[derive(Clone, Copy, PartialEq, Eq, Structural, Debug)]
pub enum TryPeerError {
    TimedOut,
    Connect(DirectConnectError),
    Handshake(ConnectHandshakeError),
}

/// Where one attempt stands.
#[derive(Clone, Copy, PartialEq, Eq, Structural, Debug)]
pub enum AttemptPhase {
    /// Waiting for the transport to connect.
    Connecting,
    /// Connected; the request is on the wire and the reply is awaited.
    AwaitingResponse,
    /// Finished, one way or the other; the attempt reacts to nothing more.
    Done,
}

/// One bootstrap attempt toward one candidate address.
pub struct TryPeer {
    /// The candidate address being tried.
    pub addr: PaAddr,
    /// The identity the session will be keyed on.
    pub their_uid: PublicId,
    /// When the connect phase expires.
    pub connect_deadline: u64,
    /// When the handshake phase expires; meaningful once connected.
    pub handshake_deadline: u64,
    /// Where the attempt stands.
    pub phase: AttemptPhase,
}

impl TryPeer {
    /// The attempt's deadlines are in range.
    pub open spec fn wf(&self) -> bool {
        self.connect_deadline <= MAX_INSTANT_MS + CONNECT_ATTEMPT_TIMEOUT_MS
            && self.handshake_deadline <= MAX_INSTANT_MS + HANDSHAKE_TIMEOUT_MS
    }

    /// Starts an attempt at `now`: the driver opens a transport connection
    /// to `addr`, and has one connect window to finish it.
    pub fn new(addr: PaAddr, their_uid: PublicId, now: u64) -> (r: TryPeer)
        requires
            now <= MAX_INSTANT_MS,
        ensures
            r.wf(),
            r.addr == addr,
            r.their_uid == their_uid,
            r.phase == AttemptPhase::Connecting,
            r.connect_deadline == now + CONNECT_ATTEMPT_TIMEOUT_MS,
    {
        TryPeer {
            addr,
            their_uid,
            connect_deadline: now + CONNECT_ATTEMPT_TIMEOUT_MS,
            handshake_deadline: 0,
            phase: AttemptPhase::Connecting,
        }
    }

    /// Takes the transport's connect result. A connection moves the attempt
    /// into the handshake under a fresh deadline and yields the framed
    /// bootstrap request to write; a transport failure ends the attempt
    /// with that failure. Anything arriving after the attempt is done is
    /// ignored.
    pub fn on_connect_result(
        &mut self,
        result: Result<(), DirectConnectError>,
        request: &BootstrapRequest,
        now: u64,
    ) -> (r: Option<Result<Vec<u8>, TryPeerError>>)
        requires
            old(self).wf(),
            now <= MAX_INSTANT_MS,
            request.nonce@.len() + 15 <= u32::MAX,
        ensures
            final(self).wf(),
            old(self).phase != AttemptPhase::Connecting ==> r is None && *final(self) == *old(self),
            old(self).phase == AttemptPhase::Connecting ==> match result {
                Ok(()) => {
                    &&& r matches Some(Ok(f)) && f@ == frame_bytes(
                        handshake_msg_bytes(HandshakeMessageV::BootstrapRequest(request@)),
                    )
                    &&& *final(self) == TryPeer {
                        phase: AttemptPhase::AwaitingResponse,
                        handshake_deadline: (now + HANDSHAKE_TIMEOUT_MS) as u64,
                        ..*old(self)
                    }
                },
                Err(e) => {
                    &&& r === Some(Err(TryPeerError::Connect(e)))
                    &&& final(self).phase == AttemptPhase::Done
                },
            },
    {
        match self.phase {
            AttemptPhase::Connecting => {},
            _ => {
                return None;
            },
        }
        match result {
            Ok(()) => {
                let frame = bootstrap_request_frame(request);
                self.phase = AttemptPhase::AwaitingResponse;
                self.handshake_deadline = now + HANDSHAKE_TIMEOUT_MS;
                Some(Ok(frame))
            },
            Err(e) => {
                self.phase = AttemptPhase::Done;
                Some(Err(TryPeerError::Connect(e)))
            },
        }
    }

    /// Takes the one handshake reply (or the stream's end) and concludes
    /// the attempt: a grant yields the session, everything else the
    /// handshake failure, exactly as [`bootstrap_connect_handshake`] rules.
    /// A reply after the attempt is done is ignored.
    pub fn on_response(&mut self, response: Option<HandshakeMessage>, now: u64) -> (r: Option<
        Result<Peer, TryPeerError>,
    >)
        requires
            old(self).wf(),
            now <= MAX_INSTANT_MS,
        ensures
            final(self).wf(),
            old(self).phase != AttemptPhase::AwaitingResponse ==> r is None && *final(self) == *old(
                self,
            ),
            old(self).phase == AttemptPhase::AwaitingResponse ==> final(self).phase
                == AttemptPhase::Done && match r {
                Some(Ok(peer)) => {
                    &&& response matches Some(m) && m@ is BootstrapGranted
                    &&& peer.wf()
                    &&& peer.open
                    &&& peer.their_uid == old(self).their_uid
                    &&& peer.addr == old(self).addr
                    &&& peer.last_send_time == now
                },
                Some(Err(TryPeerError::Handshake(e))) => match response {
                    None => e == ConnectHandshakeError::Disconnected,
                    Some(m) => match m@ {
                        HandshakeMessageV::BootstrapGranted => false,
                        HandshakeMessageV::BootstrapDenied(reason) => e
                            == ConnectHandshakeError::BootstrapDenied(reason),
                        HandshakeMessageV::BootstrapRequest(_) => e
                            == ConnectHandshakeError::InvalidResponse,
                    },
                },
                _ => false,
            },
    {
        match self.phase {
            AttemptPhase::AwaitingResponse => {},
            _ => {
                return None;
            },
        }
        self.phase = AttemptPhase::Done;
        match bootstrap_connect_handshake(response, self.their_uid, self.addr, now) {
            Ok(peer) => Some(Ok(peer)),
            Err(e) => Some(Err(TryPeerError::Handshake(e))),
        }
    }

    /// Checks the attempt's clock. A connect phase past its deadline ends
    /// in `TimedOut`; a handshake phase past its own ends in
    /// `Handshake(TimedOut)`. An attempt inside its windows, or already
    /// done, is untouched.
    pub fn poll_timeout(&mut self, now: u64) -> (r: Option<TryPeerError>)
        requires
            old(self).wf(),
        ensures
            final(self).wf(),
            old(self).phase == AttemptPhase::Connecting && now >= old(self).connect_deadline ==> r
                === Some(TryPeerError::TimedOut) && final(self).phase == AttemptPhase::Done,
            old(self).phase == AttemptPhase::AwaitingResponse && now >= old(
                self,
            ).handshake_deadline ==> r === Some(TryPeerError::Handshake(
                ConnectHandshakeError::TimedOut,
            )) && final(self).phase == AttemptPhase::Done,
            old(self).phase == AttemptPhase::Connecting && now < old(self).connect_deadline ==> r
                is None && *final(self) == *old(self),
            old(self).phase == AttemptPhase::AwaitingResponse && now < old(
                self,
            ).handshake_deadline ==> r is None && *final(self) == *old(self),
            old(self).phase == AttemptPhase::Done ==> r is None && *final(self) == *old(self),
    {
        match self.phase {
            AttemptPhase::Connecting => {
                if now >= self.connect_deadline {
                    self.phase = AttemptPhase::Done;
                    Some(TryPeerError::TimedOut)
                } else {
                    None
                }
            },
            AttemptPhase::AwaitingResponse => {
                if now >= self.handshake_deadline {
                    self.phase = AttemptPhase::Done;
                    Some(TryPeerError::Handshake(ConnectHandshakeError::TimedOut))
                } else {
                    None
                }
            },
            AttemptPhase::Done => None,
        }
    }
}

/// The race over all candidates: the failures recorded so far in
/// completion order, and the winning session once one attempt succeeds.
pub struct ConnectRace {
    /// Each failed address with why it failed, in the order the attempts
    /// completed.
    pub failures: Vec<(PaAddr, TryPeerError)>,
    /// The first session produced, if any; its arrival cancels the race.
    pub winner: Option<Peer>,
}

impl ConnectRace {
    /// Whether the race is decided: outstanding attempts are cancelled and
    /// later events are ignored.
    pub open spec fn done(&self) -> bool {
        self.winner is Some
    }

    /// An empty race: nothing failed, nobody won.
    pub fn new() -> (r: ConnectRace)
        ensures
            r.failures@ =~= Seq::<(PaAddr, TryPeerError)>::empty(),
            !r.done(),
    {
        ConnectRace { failures: Vec::new(), winner: None }
    }

    /// Records one attempt's failure. The failure map grows by exactly this
    /// entry, at the end — completion order — and the race goes on: no
    /// failure decides it, other candidates continue.
    pub fn on_attempt_failed(&mut self, addr: PaAddr, error: TryPeerError)
        ensures
            final(self).failures@ == old(self).failures@ + seq![(addr, error)],
            final(self).winner == old(self).winner,
            final(self).done() == old(self).done(),
    {
        self.failures.push((addr, error));
    }

    /// Takes an attempt's session. The first one wins and decides the race;
    /// a session arriving after that is returned to the caller to finalize,
    /// and changes nothing — no later success displaces the winner.
    pub fn on_attempt_succeeded(&mut self, peer: Peer) -> (r: Option<Peer>)
        ensures
            !old(self).done() ==> final(self).winner == Some(peer) && r is None && final(
                self).failures == old(self).failures,
            old(self).done() ==> r == Some(peer) && *final(self) == *old(self),
            final(self).done(),
    {
        if self.winner.is_none() {
            self.winner = Some(peer);
            None
        } else {
            Some(peer)
        }
    }

    /// Concludes the race: the winning session, or — when every attempt
    /// failed — each address paired with its failure, in completion order.
    pub fn finish(self) -> (r: Result<Peer, Vec<(PaAddr, TryPeerError)>>)
        ensures
            match r {
                Ok(peer) => self.winner == Some(peer),
                Err(failures) => self.winner is None && failures == self.failures,
            },
    {
        match self.winner {
            Some(peer) => Ok(peer),
            None => Err(self.failures),
        }
    }
}

} // verus!
