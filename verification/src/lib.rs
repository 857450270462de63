//! Core of a peer-to-peer connection manager: the bootstrap handshake,
//! peer-session liveness (heartbeats and inactivity detection), the
//! connection race over candidate addresses, and LAN service discovery.
//!
//! Everything here is the decision logic of those subsystems: wire
//! encodings, protocol state machines and timer arithmetic, stated over
//! millisecond instants. Socket I/O and task scheduling live outside; a
//! driver feeds events (bytes read, connect results, the clock) into these
//! functions and performs the actions they return.

use vstd::prelude::*;

pub mod id;
pub mod wire;
pub mod msg;
pub mod peer;
pub mod handshake;
pub mod attempt;
pub mod discovery;

verus! {

/// How long a session may go without sending before a heartbeat is owed.
pub const HEARTBEAT_PERIOD_MS: u64 = 20_000;

/// How long a session may go without receiving before it is torn down.
pub const INACTIVITY_TIMEOUT_MS: u64 = 120_000;

/// Wall-clock bound on the whole bootstrap handshake.
pub const HANDSHAKE_TIMEOUT_MS: u64 = 9_000;

/// Wall-clock bound on each direct-connect attempt.
pub const CONNECT_ATTEMPT_TIMEOUT_MS: u64 = 10_000;

/// UDP port the discovery beacon uses when the configuration names none.
pub const SERVICE_DISCOVERY_PORT: u16 = 5_483;

/// How often a discoverer broadcasts its query while it runs.
pub const BEACON_PERIOD_MS: u64 = 1_000;

/// Largest instant (in ms) the timer arithmetic is stated for; adding any
/// of the timeout constants to an instant below this bound cannot overflow.
pub const MAX_INSTANT_MS: u64 = 0xFFFF_FFFF_FFFF;

/// The liveness constants leave room for several heartbeats inside one
/// inactivity window: a peer that heartbeats on schedule is never timed out.
pub proof fn lemma_timer_constants()
    ensures
        HEARTBEAT_PERIOD_MS < INACTIVITY_TIMEOUT_MS / 2,
{
}

} // verus!
