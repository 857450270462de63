use crust::discovery::{
    decode_payload_u16, decode_peer_infos, encode_payload_u16, encode_peer_infos,
    parse_response_datagram, query_datagram, PeerInfo, ServiceDiscovery,
};
use crust::id::{PaAddr, PublicId};
use crust::SERVICE_DISCOVERY_PORT;

#[test]
fn multiple_server_instances_in_parallel() {
    let num_servers: u16 = 3;
    let num_discovers = 3;
    let starting_port: u16 = 45_666;

    let mut servers = Vec::new();
    for i in 0..num_servers {
        let server = ServiceDiscovery::new(Some(starting_port + i), encode_payload_u16(i));
        servers.push(server);
    }

    for (i, server) in servers.iter().enumerate() {
        for _ in 0..num_discovers {
            // each discoverer broadcasts the query and collects the replies
            let query = query_datagram();
            let mut responses: Vec<(u16, u16)> = Vec::new();
            let reply = server
                .handle_query(&query)
                .expect("a listening server answers every well-formed query");
            let payload = parse_response_datagram(&reply).expect("the reply is well-formed");
            let msg = decode_payload_u16(&payload).expect("the payload is the server's value");
            responses.push((server.port(), msg));

            assert!(!responses.is_empty());
            for (_, msg) in responses {
                assert_eq!(msg, i as u16);
            }
        }
    }
}

#[test]
fn service_discovery() {
    // the configuration asks for an ephemeral port; the driver reports what
    // it bound, and the snapshot starts empty
    let empty: Vec<PeerInfo> = Vec::new();
    let mut sd = ServiceDiscovery::new(Some(0), encode_peer_infos(&empty));
    let port = sd.port();
    assert_eq!(port, 0);

    // a first discoverer sees the empty contact set
    let query = query_datagram();
    let reply = sd.handle_query(&query).expect("the server answers");
    let payload = parse_response_datagram(&reply).expect("well-formed reply");
    let addrs = decode_peer_infos(&payload).expect("a contact list");
    assert!(addrs.is_empty());

    // the owner pushes a new snapshot
    let some_addrs = vec![
        PeerInfo {
            addr: PaAddr { ip: 0x0102_0304, port: 555 },
            pub_id: PublicId { bits: 71 },
        },
        PeerInfo {
            addr: PaAddr { ip: 0x0504_0302, port: 111 },
            pub_id: PublicId { bits: 72 },
        },
    ];
    sd.set_current_info(encode_peer_infos(&some_addrs));

    // a later discoverer observes exactly the pushed addresses
    let reply = sd.handle_query(&query).expect("the server answers");
    let payload = parse_response_datagram(&reply).expect("well-formed reply");
    let peers = decode_peer_infos(&payload).expect("a contact list");
    let peer_addrs: Vec<PaAddr> = peers.iter().map(|p| p.addr).collect();
    assert_eq!(
        peer_addrs,
        vec![PaAddr { ip: 0x0102_0304, port: 555 }, PaAddr { ip: 0x0504_0302, port: 111 }]
    );
}

#[test]
fn default_port_applies_when_config_names_none() {
    let sd = ServiceDiscovery::new(None, Vec::new());
    assert_eq!(sd.port(), SERVICE_DISCOVERY_PORT);
    assert_eq!(sd.port(), 5_483);
}

#[test]
fn server_ignores_queries_while_listening_is_off() {
    let mut sd = ServiceDiscovery::new(None, encode_payload_u16(4));
    let query = query_datagram();
    assert!(sd.handle_query(&query).is_some());
    sd.set_listen(false);
    assert!(sd.handle_query(&query).is_none());
    sd.set_listen(true);
    assert!(sd.handle_query(&query).is_some());
}

#[test]
fn server_ignores_malformed_queries() {
    let sd = ServiceDiscovery::new(None, encode_payload_u16(4));
    assert!(sd.handle_query(&Vec::new()).is_none());
    assert!(sd.handle_query(&vec![9u8]).is_none());
    assert!(sd.handle_query(&vec![0u8, 0]).is_none());
}

#[test]
fn discoverer_discards_malformed_datagrams_silently() {
    assert!(parse_response_datagram(&Vec::new()).is_none());
    // a query is not a reply
    assert!(parse_response_datagram(&query_datagram()).is_none());
    assert!(parse_response_datagram(&vec![9u8, 1, 2]).is_none());
}

#[test]
fn contact_list_payload_round_trips() {
    let contacts = vec![
        PeerInfo {
            addr: PaAddr { ip: 0xC0A8_0101, port: 80 },
            pub_id: PublicId { bits: u64::MAX },
        },
        PeerInfo {
            addr: PaAddr { ip: 0, port: 0 },
            pub_id: PublicId { bits: 0 },
        },
        PeerInfo {
            addr: PaAddr { ip: 0xFFFF_FFFF, port: 65_535 },
            pub_id: PublicId { bits: 1 },
        },
    ];
    let payload = encode_peer_infos(&contacts);
    assert_eq!(payload.len(), 4 + 14 * 3);
    let decoded = decode_peer_infos(&payload).expect("a contact list");
    assert_eq!(decoded, contacts);
}

#[test]
fn contact_list_rejects_malformed_payloads() {
    assert!(decode_peer_infos(&vec![0u8]).is_none());
    // a count that disagrees with the bytes that follow
    let mut payload = encode_peer_infos(&vec![PeerInfo {
        addr: PaAddr { ip: 1, port: 2 },
        pub_id: PublicId { bits: 3 },
    }]);
    payload.push(0);
    assert!(decode_peer_infos(&payload).is_none());
    payload.truncate(10);
    assert!(decode_peer_infos(&payload).is_none());
}

#[test]
fn discovery_round_trip_across_consecutive_ports() {
    // three servers on consecutive ports, payloads 0, 1 and 2
    let base: u16 = 5_000;
    let servers: Vec<ServiceDiscovery> = (0..3u16)
        .map(|i| ServiceDiscovery::new(Some(base + i), encode_payload_u16(i)))
        .collect();
    for (i, server) in servers.iter().enumerate() {
        assert_eq!(server.port(), base + i as u16);
        // several query rounds stand in for the two seconds of collection
        let mut observed = Vec::new();
        for _ in 0..5 {
            let reply = server.handle_query(&query_datagram()).expect("the server answers");
            let payload = parse_response_datagram(&reply).expect("well-formed reply");
            observed.push(decode_payload_u16(&payload).expect("the server's value"));
        }
        assert!(!observed.is_empty());
        for v in observed {
            assert_eq!(v, i as u16);
        }
    }
}
