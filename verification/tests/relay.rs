use relay_core::connection::{ConnectionId, IcmpConnection, ReadOutcome, WriteOutcome};
use relay_core::icmp_header::IcmpHeaderData;
use relay_core::ipv4_header::Ipv4HeaderData;
use relay_core::router::{DispatchResult, Router};
use relay_core::selector::{Ready, Selector};

fn echo_request() -> Vec<u8> {
    vec![
        0x45, 0x00, 0x00, 0x20, 0x12, 0x34, 0x40, 0x00, 0x40, 0x01, 0x0e, 0x98, // ipv4
        10, 0, 0, 2, 8, 8, 8, 8, // source 10.0.0.2, destination 8.8.8.8
        8, 0, 0x5a, 0x37, 0x00, 0x2a, 0x00, 0x01, // icmp echo request, id 42, seq 1
        0xde, 0xad, 0xbe, 0xef, // echo payload
    ]
}

fn other_flow_request() -> Vec<u8> {
    let mut p = echo_request();
    p[19] = 4; // destination 8.8.8.4: a different flow identity
    p
}

fn readable() -> Ready {
    Ready { readable: true, writable: false }
}

fn writable() -> Ready {
    Ready { readable: false, writable: true }
}

#[test]
fn one_flow_one_connection_payloads_in_order() {
    // All packets of one flow identity reach a single connection, whose
    // buffer holds their payloads in arrival order.
    let mut selector = Selector::new();
    let mut router = Router::new();
    let mut first = echo_request();
    first[31] = 0x01;
    let mut second = echo_request();
    second[31] = 0x02;
    assert_eq!(DispatchResult::Created, router.dispatch(&mut selector, &first, true, 0));
    assert_eq!(1, router.len());
    assert_eq!(DispatchResult::Forwarded, router.dispatch(&mut selector, &second, true, 1));
    assert_eq!(1, router.len());
    let token = router.token_of(&flow_id()).unwrap();
    assert_eq!(&first[20..], &router.next_datagram(token).unwrap()[..]);
    // a successful write consumes the oldest datagram; the next one is the
    // second payload
    let r = router.on_event(
        &mut selector,
        token,
        writable(),
        WriteOutcome::Written,
        &ReadOutcome::WouldBlock,
        2,
    );
    assert!(r.is_none());
    assert_eq!(&second[20..], &router.next_datagram(token).unwrap()[..]);
}

fn flow_id() -> ConnectionId {
    ConnectionId {
        protocol: 1,
        source: 0x0a000002,
        source_port: 0,
        destination: 0x08080808,
        destination_port: 0,
    }
}

#[test]
fn different_flows_never_share_a_connection() {
    let mut selector = Selector::new();
    let mut router = Router::new();
    assert_eq!(DispatchResult::Created, router.dispatch(&mut selector, &echo_request(), true, 0));
    assert_eq!(
        DispatchResult::Created,
        router.dispatch(&mut selector, &other_flow_request(), true, 0)
    );
    assert_eq!(2, router.len());
    let t1 = router.token_of(&flow_id()).unwrap();
    let mut id2 = flow_id();
    id2.destination = 0x08080804;
    let t2 = router.token_of(&id2).unwrap();
    assert_ne!(t1, t2);
    assert_eq!(&echo_request()[20..], &router.next_datagram(t1).unwrap()[..]);
    assert_eq!(&other_flow_request()[20..], &router.next_datagram(t2).unwrap()[..]);
}

#[test]
fn expired_flow_is_swept() {
    let mut selector = Selector::new();
    let mut router = Router::new();
    router.dispatch(&mut selector, &echo_request(), true, 10);
    let token = router.token_of(&flow_id()).unwrap();
    // exactly at the threshold: not yet expired
    router.sweep(&mut selector, 12);
    assert_eq!(1, router.len());
    // past the threshold: gone, token deregistered
    router.sweep(&mut selector, 13);
    assert_eq!(0, router.len());
    assert!(!selector.contains(token));
    // sweeping an empty registry is a no-op
    router.sweep(&mut selector, 14);
    assert_eq!(0, router.len());
}

#[test]
fn close_twice_is_idempotent_and_count_drops_by_one() {
    let mut selector = Selector::new();
    let ipv4 = Ipv4HeaderData::parse(&echo_request()[..]);
    let icmp = IcmpHeaderData::parse(&echo_request()[20..]);
    let mut conn = IcmpConnection::create(&mut selector, flow_id(), &ipv4, &icmp, 0);
    let token = conn.token;
    assert!(selector.contains(token));
    conn.close(&mut selector);
    assert!(conn.is_closed());
    assert!(!selector.contains(token));
    // the second close is a no-op
    conn.close(&mut selector);
    assert!(conn.is_closed());
    assert!(!selector.contains(token));

    // the registry's count decreases by exactly one
    let mut router = Router::new();
    router.dispatch(&mut selector, &echo_request(), true, 0);
    router.dispatch(&mut selector, &other_flow_request(), true, 0);
    assert_eq!(2, router.len());
    assert!(router.remove(&flow_id()));
    assert_eq!(1, router.len());
    assert!(!router.remove(&flow_id()));
    assert_eq!(1, router.len());
}

#[test]
fn echo_round_trip_then_idle_sweep() {
    // Inbound echo request for a new flow: a connection is created and the
    // payload queued for the real socket; the echo reply read from the
    // socket is repackaged with recomputed checksums; after more than two
    // idle seconds the flow is swept away.
    let mut selector = Selector::new();
    let mut router = Router::new();
    assert_eq!(DispatchResult::Created, router.dispatch(&mut selector, &echo_request(), true, 0));
    assert_eq!(1, router.len());
    let token = router.token_of(&flow_id()).unwrap();
    assert_eq!(&echo_request()[20..], &router.next_datagram(token).unwrap()[..]);
    let reply = vec![
        0u8, 0, 0x55, 0x55, 0x00, 0x2a, 0x00, 0x01, 0xde, 0xad, 0xbe, 0xef,
    ];
    let out = router
        .on_event(
            &mut selector,
            token,
            readable(),
            WriteOutcome::WouldBlock,
            &ReadOutcome::Data(reply),
            1,
        )
        .unwrap();
    let expected: Vec<u8> = vec![
        0x45, 0x00, 0x00, 0x20, 0x12, 0x34, 0x40, 0x00, 0x40, 0x01, 0x0e, 0x98, // ipv4
        8, 8, 8, 8, 10, 0, 0, 2, // addresses exchanged
        0, 0, 0x62, 0x37, 0x00, 0x2a, 0x00, 0x01, // reply, checksum recomputed
        0xde, 0xad, 0xbe, 0xef,
    ];
    assert_eq!(expected, out);
    assert_eq!(1, router.len());
    router.sweep(&mut selector, 4);
    assert_eq!(0, router.len());
    assert!(!selector.contains(token));
}

#[test]
fn full_buffer_drops_newest_and_flow_stays_open() {
    // The outbound buffer holds four datagrams; the fifth of one flow is
    // dropped, nothing fails, and the flow keeps accepting events.
    let mut selector = Selector::new();
    let mut router = Router::new();
    assert_eq!(DispatchResult::Created, router.dispatch(&mut selector, &echo_request(), true, 0));
    for _ in 0..3 {
        assert_eq!(
            DispatchResult::Forwarded,
            router.dispatch(&mut selector, &echo_request(), true, 0)
        );
    }
    assert_eq!(DispatchResult::Dropped, router.dispatch(&mut selector, &echo_request(), true, 0));
    assert_eq!(1, router.len());
    // the oldest datagram is still the one that entered first
    let token = router.token_of(&flow_id()).unwrap();
    assert_eq!(&echo_request()[20..], &router.next_datagram(token).unwrap()[..]);
}

#[test]
fn fatal_read_closes_and_later_event_is_noop() {
    let mut selector = Selector::new();
    let mut router = Router::new();
    router.dispatch(&mut selector, &echo_request(), true, 0);
    let token = router.token_of(&flow_id()).unwrap();
    let r = router.on_event(
        &mut selector,
        token,
        readable(),
        WriteOutcome::WouldBlock,
        &ReadOutcome::Failed,
        1,
    );
    assert!(r.is_none());
    assert_eq!(0, router.len());
    assert!(!selector.contains(token));
    // a lingering OS event for the dead token is a silent no-op
    let r2 = router.on_event(
        &mut selector,
        token,
        readable(),
        WriteOutcome::WouldBlock,
        &ReadOutcome::Failed,
        2,
    );
    assert!(r2.is_none());
    assert_eq!(0, router.len());
}

#[test]
fn hangup_event_closes_the_flow() {
    let mut selector = Selector::new();
    let mut router = Router::new();
    router.dispatch(&mut selector, &echo_request(), true, 0);
    let token = router.token_of(&flow_id()).unwrap();
    let r = router.on_event(
        &mut selector,
        token,
        Ready { readable: false, writable: false },
        WriteOutcome::WouldBlock,
        &ReadOutcome::WouldBlock,
        1,
    );
    assert!(r.is_none());
    assert_eq!(0, router.len());
    assert!(!selector.contains(token));
}

#[test]
fn rejected_packets_create_nothing() {
    let mut selector = Selector::new();
    let mut router = Router::new();
    // too short
    assert_eq!(
        DispatchResult::Malformed,
        router.dispatch(&mut selector, &echo_request()[..16], true, 0)
    );
    // wrong transport protocol
    let mut tcp = echo_request();
    tcp[9] = 6;
    assert_eq!(DispatchResult::Malformed, router.dispatch(&mut selector, &tcp, true, 0));
    // declared length disagrees with the bytes
    let mut bad_len = echo_request();
    bad_len[3] = 0x21;
    assert_eq!(DispatchResult::Malformed, router.dispatch(&mut selector, &bad_len, true, 0));
    // well-formed, but no socket could be opened: dropped without a trace
    assert_eq!(
        DispatchResult::CreationFailed,
        router.dispatch(&mut selector, &echo_request(), false, 0)
    );
    assert_eq!(0, router.len());
}

#[test]
fn malformed_socket_read_is_dropped_flow_stays() {
    let mut selector = Selector::new();
    let mut router = Router::new();
    router.dispatch(&mut selector, &echo_request(), true, 0);
    let token = router.token_of(&flow_id()).unwrap();
    // a read too short to carry an ICMP header is dropped, the flow stays
    let r = router.on_event(
        &mut selector,
        token,
        readable(),
        WriteOutcome::WouldBlock,
        &ReadOutcome::Data(vec![1u8, 2, 3]),
        1,
    );
    assert!(r.is_none());
    assert_eq!(1, router.len());
}
