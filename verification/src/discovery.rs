//! The LAN beacon: a server that answers queries with its current
//! contact-info snapshot, and a discoverer that broadcasts queries and
//! yields whatever well-formed replies come back.
//!
//! Datagrams are one byte of discriminant, then — for a reply — the
//! snapshot payload. A payload is arbitrary serialized bytes; the codecs
//! here cover the two payloads the protocol ships: a bare 16-bit value and
//! a list of contact records. The driver owns the sockets: it sends the
//! query every beacon period, hands every received datagram to
//! [`handle_query`](ServiceDiscovery::handle_query) or
//! [`parse_response_datagram`], and pairs a reply with the datagram's
//! source address. Malformed datagrams are discarded silently; the
//! discoverer never blocks its consumer on missing replies.

use vstd::prelude::*;
use crate::id::{PaAddr, PublicId};
use crate::wire::{be16, be16_val, be32, be32_val, be64, be64_val, push_be16, push_be32, push_be64,
    push_bytes, read_be16, read_be32, read_be64};
use crate::SERVICE_DISCOVERY_PORT;

verus! {

pub const QUERY_TAG: u8 = 0;

pub const RESPONSE_TAG: u8 = 1;

/// The one datagram a discoverer broadcasts.
pub open spec fn query_bytes() -> Seq<u8> {
    seq![QUERY_TAG]
}

/// The datagram a server answers with: the discriminant, then its
/// snapshot.
pub open spec fn response_bytes(payload: Seq<u8>) -> Seq<u8> {
    seq![RESPONSE_TAG] + payload
}

/// Builds the query datagram.
pub fn query_datagram() -> (r: Vec<u8>)
    ensures
        r@ == query_bytes(),
{
    let mut out: Vec<u8> = Vec::new();
    out.push(QUERY_TAG);
    assert(out@ =~= query_bytes());
    out
}

/// Reads one datagram a discoverer received. A well-formed reply yields
/// its payload — the driver pairs it with the datagram's source address —
/// and anything else yields nothing and is dropped without a sound.
pub fn parse_response_datagram(d: &Vec<u8>) -> (r: Option<Vec<u8>>)
    ensures
        match r {
            Some(payload) => d@ == response_bytes(payload@),
            None => forall|p: Seq<u8>| d@ != response_bytes(p),
        },
{
    if d.len() >= 1 && d[0] == RESPONSE_TAG {
        let mut payload: Vec<u8> = Vec::new();
        let mut i: usize = 1;
        while i < d.len()
            invariant
                1 <= i <= d.len(),
                payload@ == d@.subrange(1, i as int),
            decreases d.len() - i,
        {
            payload.push(d[i]);
            i = i + 1;
            assert(payload@ =~= d@.subrange(1, i as int));
        }
        assert(d@ =~= response_bytes(payload@));
        Some(payload)
    } else {
        proof {
            assert forall|p: Seq<u8>| d@ != response_bytes(p) by {
                assert(response_bytes(p).len() >= 1 && response_bytes(p)[0] == RESPONSE_TAG);
            }
        }
        None
    }
}

/// The beacon server: its bound port, the snapshot it currently answers
/// with, and whether it answers at all.
pub struct ServiceDiscovery {
    /// The UDP port the server listens on.
    pub port: u16,
    /// The serialized snapshot a reply carries.
    pub current_info: Vec<u8>,
    /// Whether queries are answered; starts true, toggled by the owner.
    pub listen: bool,
}

impl ServiceDiscovery {
    /// Starts a server: it answers from the start, on the configured port
    /// or on the protocol's default when the configuration names none.
    pub fn new(config_port: Option<u16>, current_info: Vec<u8>) -> (r: ServiceDiscovery)
        ensures
            r.port == match config_port {
                Some(p) => p,
                None => SERVICE_DISCOVERY_PORT,
            },
            r.current_info == current_info,
            r.listen,
    {
        let port = match config_port {
            Some(p) => p,
            None => SERVICE_DISCOVERY_PORT,
        };
        ServiceDiscovery { port, current_info, listen: true }
    }

    /// The port the server listens on.
    pub fn port(&self) -> (r: u16)
        ensures
            r == self.port,
    {
        self.port
    }

    /// Turns answering on or off; nothing else moves.
    pub fn set_listen(&mut self, listen: bool)
        ensures
            *final(self) == (ServiceDiscovery { listen, ..*old(self) }),
    {
        self.listen = listen;
    }

    /// Swaps in a new snapshot atomically; replies from now on carry it.
    pub fn set_current_info(&mut self, info: Vec<u8>)
        ensures
            *final(self) == (ServiceDiscovery { current_info: info, ..*old(self) }),
    {
        self.current_info = info;
    }

    /// Answers one received datagram: exactly one reply — the current
    /// snapshot, for the datagram's source — when the server listens and
    /// the datagram is a well-formed query; nothing otherwise.
    pub fn handle_query(&self, datagram: &Vec<u8>) -> (r: Option<Vec<u8>>)
        ensures
            self.listen && datagram@ == query_bytes() ==> (r matches Some(reply) && reply@
                == response_bytes(self.current_info@)),
            !(self.listen && datagram@ == query_bytes()) ==> r is None,
    {
        if !self.listen {
            return None;
        }
        if !(datagram.len() == 1 && datagram[0] == QUERY_TAG) {
            proof {
                assert(datagram@.len() == query_bytes().len() && datagram@[0] == query_bytes()[0]
                    ==> datagram@ =~= query_bytes());
            }
            return None;
        }
        let mut reply: Vec<u8> = Vec::new();
        reply.push(RESPONSE_TAG);
        push_bytes(&mut reply, &self.current_info);
        proof {
            assert(datagram@ =~= query_bytes());
            assert(reply@ =~= response_bytes(self.current_info@));
        }
        Some(reply)
    }
}

/// A served query comes back around: what the server answers to the query
/// datagram, the discoverer recovers as exactly the server's snapshot.
pub proof fn lemma_discovery_round_trip(server: ServiceDiscovery)
    requires
        server.listen,
    ensures
        response_bytes(server.current_info@).len() >= 1,
        response_bytes(server.current_info@)[0] == RESPONSE_TAG,
        response_bytes(server.current_info@).skip(1) == server.current_info@,
{
    assert(response_bytes(server.current_info@).skip(1) =~= server.current_info@);
}

/// One contact record a snapshot lists: an address a peer answers on, and
/// its identity.
#[derive(Clone, Copy, PartialEq, Eq, Structural, Debug)]
pub struct PeerInfo {
    pub addr: PaAddr,
    pub pub_id: PublicId,
}

/// The bytes of a bare 16-bit beacon payload.
pub open spec fn payload_u16_bytes(v: u16) -> Seq<u8> {
    be16(v)
}

/// Serializes a bare 16-bit payload.
pub fn encode_payload_u16(v: u16) -> (r: Vec<u8>)
    ensures
        r@ == payload_u16_bytes(v),
{
    let mut out: Vec<u8> = Vec::new();
    push_be16(&mut out, v);
    assert(out@ =~= payload_u16_bytes(v));
    out
}

/// Deserializes a bare 16-bit payload; anything but exactly two bytes is
/// rejected.
pub fn decode_payload_u16(b: &Vec<u8>) -> (r: Option<u16>)
    ensures
        match r {
            Some(v) => b@ == payload_u16_bytes(v),
            None => b@.len() != 2,
        },
{
    if b.len() == 2 {
        let v = read_be16(b, 0);
        proof {
            crate::wire::lemma_be16_bytes(b@);
            assert(b@.subrange(0, 2) =~= b@);
        }
        Some(v)
    } else {
        None
    }
}

/// The fixed-width bytes of one contact record.
pub open spec fn peer_info_bytes(p: PeerInfo) -> Seq<u8> {
    be32(p.addr.ip) + be16(p.addr.port) + be64(p.pub_id.bits)
}

/// The bytes of a run of contact records, first to last.
pub open spec fn records_bytes(s: Seq<PeerInfo>) -> Seq<u8>
    decreases s.len(),
{
    if s.len() == 0 {
        Seq::empty()
    } else {
        peer_info_bytes(s[0]) + records_bytes(s.skip(1))
    }
}

/// The contact-list payload: how many records, then the records.
pub open spec fn peer_infos_payload(s: Seq<PeerInfo>) -> Seq<u8>
    recommends
        s.len() <= u32::MAX,
{
    be32(s.len() as u32) + records_bytes(s)
}

/// Each record is 14 bytes.
pub proof fn lemma_records_bytes_len(s: Seq<PeerInfo>)
    ensures
        records_bytes(s).len() == 14 * s.len(),
    decreases s.len(),
{
    if s.len() > 0 {
        lemma_records_bytes_len(s.skip(1));
    }
}

/// Appending one record appends its bytes.
pub proof fn lemma_records_bytes_push(s: Seq<PeerInfo>, p: PeerInfo)
    ensures
        records_bytes(s.push(p)) == records_bytes(s) + peer_info_bytes(p),
    decreases s.len(),
{
    if s.len() == 0 {
        assert(s.push(p)[0] == p);
        assert(s.push(p).skip(1) =~= Seq::<PeerInfo>::empty());
        assert(records_bytes(s.push(p)) == peer_info_bytes(p) + records_bytes(
            Seq::<PeerInfo>::empty(),
        ));
        assert(records_bytes(s.push(p)) =~= records_bytes(s) + peer_info_bytes(p));
    } else {
        lemma_records_bytes_push(s.skip(1), p);
        assert(s.push(p).skip(1) =~= s.skip(1).push(p));
        assert(s.push(p)[0] == s[0]);
        assert(records_bytes(s.push(p)) == peer_info_bytes(s[0]) + records_bytes(
            s.skip(1).push(p),
        ));
        vstd::seq_lib::lemma_concat_associative(
            peer_info_bytes(s[0]),
            records_bytes(s.skip(1)),
            peer_info_bytes(p),
        );
    }
}

/// Serializes a contact list.
pub fn encode_peer_infos(s: &Vec<PeerInfo>) -> (r: Vec<u8>)
    requires
        s@.len() <= u32::MAX,
    ensures
        r@ == peer_infos_payload(s@),
{
    let mut out: Vec<u8> = Vec::new();
    push_be32(&mut out, s.len() as u32);
    let mut i: usize = 0;
    while i < s.len()
        invariant
            i <= s@.len(),
            s@.len() <= u32::MAX,
            out@ == be32(s@.len() as u32) + records_bytes(s@.take(i as int)),
        decreases s@.len() - i,
    {
        let p = s[i];
        push_be32(&mut out, p.addr.ip);
        push_be16(&mut out, p.addr.port);
        push_be64(&mut out, p.pub_id.bits);
        proof {
            lemma_records_bytes_push(s@.take(i as int), s@[i as int]);
            assert(s@.take(i + 1) =~= s@.take(i as int).push(s@[i as int]));
            assert(out@ =~= be32(s@.len() as u32) + records_bytes(s@.take(i + 1)));
        }
        i = i + 1;
    }
    proof {
        assert(s@.take(s@.len() as int) =~= s@);
    }
    out
}

/// Whether `b` is the serialized form of some contact list: a count, then
/// exactly that many 14-byte records.
pub open spec fn peer_infos_wf(b: Seq<u8>) -> bool {
    b.len() >= 4 && b.len() == 4 + 14 * be32_val(b.subrange(0, 4))
}

/// The `k`th record of a well-formed contact-list payload.
pub open spec fn parse_peer_info_at(b: Seq<u8>, k: int) -> PeerInfo
    recommends
        0 <= k,
        4 + 14 * k + 14 <= b.len(),
{
    PeerInfo {
        addr: PaAddr {
            ip: be32_val(b.subrange(4 + 14 * k, 4 + 14 * k + 4)),
            port: be16_val(b.subrange(4 + 14 * k + 4, 4 + 14 * k + 6)),
        },
        pub_id: PublicId { bits: be64_val(b.subrange(4 + 14 * k + 6, 4 + 14 * k + 14)) },
    }
}

/// Deserializes a contact list; anything not the exact serialized form of
/// one is rejected.
#[verifier::loop_isolation(false)]
pub fn decode_peer_infos(b: &Vec<u8>) -> (r: Option<Vec<PeerInfo>>)
    ensures
        match r {
            Some(v) => {
                &&& peer_infos_wf(b@)
                &&& v@.len() == be32_val(b@.subrange(0, 4))
                &&& forall|k: int| 0 <= k < v@.len() ==> v@[k] == parse_peer_info_at(b@, k)
                &&& peer_infos_payload(v@) == b@
            },
            None => !peer_infos_wf(b@),
        },
{
    if b.len() < 4 {
        return None;
    }
    let n = read_be32(b, 0);
    if (b.len() - 4) as u64 != 14 * (n as u64) {
        return None;
    }
    let n = n as usize;
    let mut v: Vec<PeerInfo> = Vec::new();
    let mut k: usize = 0;
    while k < n
        invariant
            k <= n,
            v@.len() == k,
            forall|j: int| 0 <= j < k ==> v@[j] == parse_peer_info_at(b@, j),
        decreases n - k,
    {
        let base = 4 + 14 * k;
        let ip = read_be32(b, base);
        let port = read_be16(b, base + 4);
        let bits = read_be64(b, base + 6);
        v.push(PeerInfo { addr: PaAddr { ip, port }, pub_id: PublicId { bits } });
        k = k + 1;
    }
    proof {
        lemma_payload_of_parsed(b@, v@);
    }
    Some(v)
}

/// A vector whose records all parse out of a well-formed payload
/// re-serializes to exactly that payload.
proof fn lemma_payload_of_parsed(b: Seq<u8>, v: Seq<PeerInfo>)
    requires
        peer_infos_wf(b),
        v.len() == be32_val(b.subrange(0, 4)),
        forall|k: int| 0 <= k < v.len() ==> v[k] == parse_peer_info_at(b, k),
    ensures
        peer_infos_payload(v) == b,
{
    crate::wire::lemma_be32_bytes(b.subrange(0, 4));
    lemma_records_of_parsed(b, v, v.len() as int);
    assert(records_bytes(v.take(v.len() as int)) == b.subrange(4, b.len() as int));
    assert(v.take(v.len() as int) =~= v);
    assert(peer_infos_payload(v) =~= b);
}

/// The first `m` parsed records re-serialize to the first `14 * m` record
/// bytes of the payload they parsed out of.
proof fn lemma_records_of_parsed(b: Seq<u8>, v: Seq<PeerInfo>, m: int)
    requires
        peer_infos_wf(b),
        v.len() == be32_val(b.subrange(0, 4)),
        forall|k: int| 0 <= k < v.len() ==> v[k] == parse_peer_info_at(b, k),
        0 <= m <= v.len(),
    ensures
        records_bytes(v.take(m)) == b.subrange(4, 4 + 14 * m),
    decreases m,
{
    if m == 0 {
        assert(records_bytes(v.take(0)) =~= b.subrange(4, 4));
    } else {
        lemma_records_of_parsed(b, v, m - 1);
        lemma_records_bytes_push(v.take(m - 1), v[m - 1]);
        assert(v.take(m) =~= v.take(m - 1).push(v[m - 1]));
        let p = v[m - 1];
        let k = m - 1;
        crate::wire::lemma_be32_bytes(b.subrange(4 + 14 * k, 4 + 14 * k + 4));
        crate::wire::lemma_be16_bytes(b.subrange(4 + 14 * k + 4, 4 + 14 * k + 6));
        crate::wire::lemma_be64_bytes(b.subrange(4 + 14 * k + 6, 4 + 14 * k + 14));
        assert(peer_info_bytes(p) =~= b.subrange(4 + 14 * k, 4 + 14 * k + 14));
        assert(records_bytes(v.take(m)) =~= b.subrange(4, 4 + 14 * m));
    }
}

/// A contact list crosses the beacon intact: its payload is well-formed
/// and parses back to exactly the records serialized.
pub proof fn lemma_peer_infos_round_trip(s: Seq<PeerInfo>)
    requires
        s.len() <= u32::MAX,
    ensures
        peer_infos_wf(peer_infos_payload(s)),
        forall|k: int| 0 <= k < s.len() ==> parse_peer_info_at(peer_infos_payload(s), k) == s[k],
    decreases s.len(),
{
    let b = peer_infos_payload(s);
    crate::wire::lemma_be32_round_trip(s.len() as u32);
    lemma_records_bytes_len(s);
    assert(b.subrange(0, 4) =~= be32(s.len() as u32));
    assert forall|k: int| 0 <= k < s.len() implies parse_peer_info_at(b, k) == s[k] by {
        lemma_record_bytes_at(s, k);
        let base = 4 + 14 * k;
        let p = s[k];
        assert(b.subrange(base, base + 14) == peer_info_bytes(p));
        assert(b.subrange(base, base + 4) =~= peer_info_bytes(p).subrange(0, 4));
        assert(b.subrange(base + 4, base + 6) =~= peer_info_bytes(p).subrange(4, 6));
        assert(b.subrange(base + 6, base + 14) =~= peer_info_bytes(p).subrange(6, 14));
        assert(peer_info_bytes(p).subrange(0, 4) =~= be32(p.addr.ip));
        assert(peer_info_bytes(p).subrange(4, 6) =~= be16(p.addr.port));
        assert(peer_info_bytes(p).subrange(6, 14) =~= be64(p.pub_id.bits));
        crate::wire::lemma_be32_round_trip(p.addr.ip);
        crate::wire::lemma_be16_round_trip(p.addr.port);
        crate::wire::lemma_be64_round_trip(p.pub_id.bits);
    }
}

/// Within a whole serialized contact list, record `k`'s bytes sit at their
/// fixed offset.
proof fn lemma_record_bytes_at(s: Seq<PeerInfo>, k: int)
    requires
        s.len() <= u32::MAX,
        0 <= k < s.len(),
    ensures
        peer_infos_payload(s).subrange(4 + 14 * k, 4 + 14 * k + 14) == peer_info_bytes(s[k]),
{
    lemma_records_bytes_len(s);
    lemma_records_at(s, k);
    let b = peer_infos_payload(s);
    assert(b.subrange(4 + 14 * k, 4 + 14 * k + 14) =~= records_bytes(s).subrange(
        14 * k,
        14 * k + 14,
    ));
}

/// Within a run of record bytes, record `k`'s bytes sit at offset `14 * k`.
proof fn lemma_records_at(s: Seq<PeerInfo>, k: int)
    requires
        0 <= k < s.len(),
    ensures
        records_bytes(s).subrange(14 * k, 14 * k + 14) == peer_info_bytes(s[k]),
    decreases k,
{
    lemma_records_bytes_len(s);
    if k == 0 {
        lemma_records_bytes_len(s.skip(1));
        assert(records_bytes(s).subrange(0, 14) =~= peer_info_bytes(s[0]));
    } else {
        lemma_records_at(s.skip(1), k - 1);
        lemma_records_bytes_len(s.skip(1));
        assert(s.skip(1)[k - 1] == s[k]);
        assert(records_bytes(s).subrange(14 * k, 14 * k + 14) =~= records_bytes(s.skip(1)).subrange(
            14 * (k - 1),
            14 * (k - 1) + 14,
        ));
    }
}

} // verus!
