use relay_core::icmp_header::IcmpHeaderData;
use relay_core::ipv4_header::Ipv4HeaderData;
use relay_core::packetizer::Packetizer;

fn echo_request() -> Vec<u8> {
    vec![
        0x45, 0x00, 0x00, 0x20, 0x12, 0x34, 0x40, 0x00, 0x40, 0x01, 0x0e, 0x98, // ipv4
        10, 0, 0, 2, 8, 8, 8, 8, // source 10.0.0.2, destination 8.8.8.8
        8, 0, 0x5a, 0x37, 0x00, 0x2a, 0x00, 0x01, // icmp echo request, id 42, seq 1
        0xde, 0xad, 0xbe, 0xef, // echo payload
    ]
}

#[test]
fn parse_ipv4_fields() {
    let packet = echo_request();
    let d = Ipv4HeaderData::parse(&packet[..]);
    assert_eq!(20, d.header_length());
    assert_eq!(32, d.total_length());
    assert_eq!(1, d.protocol());
    assert_eq!(0x0a000002, d.source());
    assert_eq!(0x08080808, d.destination());
    assert_eq!(0x0e98, d.checksum);
}

#[test]
fn ipv4_write_round_trips() {
    let packet = echo_request();
    let d = Ipv4HeaderData::parse(&packet[..]);
    let mut out = vec![0u8; 20];
    d.write(&mut out);
    assert_eq!(&packet[..20], &out[..]);
}

#[test]
fn ipv4_update_checksum_self_verifies() {
    let packet = echo_request();
    let mut d = Ipv4HeaderData::parse(&packet[..]);
    let mut bytes = packet[..20].to_vec();
    d.update_checksum(&mut bytes);
    // the stored value was correct, so recomputation reproduces it
    assert_eq!(&packet[..20], &bytes[..]);
    assert_eq!(0x0e98, d.checksum);
    // a verification pass over the stamped header sums to zero
    assert_eq!(0, relay_core::checksum::compute_checksum(&bytes[..]));
}

#[test]
fn packetize_rebuilds_reply_packet() {
    // Parse the request, record the templates, then wrap an echo reply
    // read from the raw socket: addresses swapped, length set, both
    // checksums recomputed (the reply's own checksum field is garbage and
    // must not be trusted).
    let packet = echo_request();
    let ipv4 = Ipv4HeaderData::parse(&packet[..]);
    let icmp = IcmpHeaderData::parse(&packet[20..]);
    let packetizer = Packetizer::new(&ipv4, &icmp);
    let reply = [
        0u8, 0, 0x55, 0x55, 0x00, 0x2a, 0x00, 0x01, 0xde, 0xad, 0xbe, 0xef,
    ];
    let out = packetizer.packetize(&reply[..]);
    let expected: Vec<u8> = vec![
        0x45, 0x00, 0x00, 0x20, 0x12, 0x34, 0x40, 0x00, 0x40, 0x01, 0x0e, 0x98, // ipv4
        8, 8, 8, 8, 10, 0, 0, 2, // source and destination exchanged
        0, 0, 0x62, 0x37, 0x00, 0x2a, 0x00, 0x01, // echo reply, checksum recomputed
        0xde, 0xad, 0xbe, 0xef,
    ];
    assert_eq!(expected, out);
}

#[test]
fn packetize_output_checksums_verify() {
    let packet = echo_request();
    let ipv4 = Ipv4HeaderData::parse(&packet[..]);
    let icmp = IcmpHeaderData::parse(&packet[20..]);
    let packetizer = Packetizer::new(&ipv4, &icmp);
    let reply = [3u8, 1, 0, 0, 0x12, 0x34];
    let out = packetizer.packetize(&reply[..]);
    assert_eq!(0, relay_core::checksum::compute_checksum(&out[..20]));
    assert_eq!(0, relay_core::checksum::compute_checksum(&out[20..]));
}

#[test]
fn parse_then_rewrite_preserves_non_checksum_bytes() {
    // The round-trip law on concrete bytes: every byte outside the two
    // checksum fields is reproduced exactly.
    let packet = echo_request();
    let ipv4 = Ipv4HeaderData::parse(&packet[..]);
    let icmp = IcmpHeaderData::parse(&packet[20..]);
    // rebuild around the original transport bytes, from an un-swapped
    // template, to compare with the original
    let mut template = ipv4;
    template.swap_source_and_destination(); // packetizer swaps once more
    let packetizer = Packetizer::new(&template, &icmp);
    let out = packetizer.packetize(&packet[20..]);
    assert_eq!(packet.len(), out.len());
    for i in 0..packet.len() {
        if !(10..12).contains(&i) && !(22..24).contains(&i) {
            assert_eq!(packet[i], out[i], "byte {} differs", i);
        }
    }
}
