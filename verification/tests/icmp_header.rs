use relay_core::icmp_header::IcmpHeaderData;
use relay_core::ipv4_header::Ipv4HeaderData;

fn create_header() -> Vec<u8> {
    let mut raw = Vec::new();
    raw.reserve(8);
    raw.push(0u8); // icmp type
    raw.push(0u8); // icmp code
    raw.push(0u8); // icmp checksum, high byte
    raw.push(0u8); // icmp checksum, low byte
    raw
}

#[test]
fn parse_header_test() {
    let raw = &create_header()[..];
    let data = IcmpHeaderData::parse(raw);
    assert_eq!(0, data.icmp_type);
    assert_eq!(0, data.icmp_code);
}

#[test]
fn edit_header_test() {
    let raw = create_header();
    let header_data = IcmpHeaderData::parse(&raw[..]);
    let mut header = header_data.bind_mut(raw);
    header.set_icmp_code(1);
    header.set_icmp_type(1);
    assert_eq!(1, header.icmp_code());
    assert_eq!(1, header.icmp_type());
    {
        let raw = header.raw();
        let raw_icmp_type = raw[0];
        let raw_icmp_code = raw[1];
        assert_eq!(1, raw_icmp_type);
        assert_eq!(1, raw_icmp_code);
    }
}

#[test]
fn bind_reads_fields() {
    let raw = vec![8u8, 0, 0x5a, 0x37];
    let data = IcmpHeaderData::parse(&raw[..]);
    assert_eq!(8, data.icmp_type());
    assert_eq!(0, data.icmp_code());
    assert_eq!(0x5a37, data.checksum);
    let header = data.bind(&raw[..]);
    assert_eq!(8, header.icmp_type());
    assert_eq!(0, header.icmp_code());
    assert_eq!(&raw[..], header.raw());
    assert_eq!(8, header.data().icmp_type());
}

#[test]
fn update_checksum_exact() {
    // An ICMP message of 4 header bytes and 4 payload bytes, checksum
    // recomputed over the transport-length-derived range.
    let ipv4 = Ipv4HeaderData {
        version_ihl: 0x45,
        tos: 0,
        total_length: 28,
        id: 0,
        flags_fragment: 0,
        ttl: 64,
        protocol: 1,
        checksum: 0,
        source: 0x0a000002,
        destination: 0x08080808,
    };
    let raw = vec![8u8, 0, 0xff, 0xff]; // stale checksum, never trusted
    let payload = [0x00u8, 0x2a, 0x00, 0x01];
    let data = IcmpHeaderData::parse(&raw[..]);
    let mut header = data.bind_mut(raw);
    header.update_checksum(&ipv4, &payload[..]);
    let (bytes, _) = header.unbind();
    // words 0x0800, 0x0000 (zeroed field), 0x002a, 0x0001 sum to 0x082b
    assert_eq!(vec![8u8, 0, 0xf7, 0xd4], bytes);
}

#[test]
fn data_mut_and_raw_mut_reach_the_bound_pair() {
    let raw = create_header();
    let data = IcmpHeaderData::parse(&raw[..]);
    let mut header = data.bind_mut(raw);
    header.data_mut().icmp_type = 3;
    assert_eq!(3, header.icmp_type());
    header.raw_mut()[1] = 7;
    assert_eq!(7, header.raw()[1]);
}
