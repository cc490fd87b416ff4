//! Packet reconstruction: given the header templates recorded when a flow
//! was created, wrap one transport-layer message read from the real socket
//! as a complete IPv4 packet, with both checksums recomputed, ready to
//! hand to the tunnel.

use crate::binary::{be16, hi8, lo8};
use crate::checksum::{checksum_of, compute_checksum, word_at, lemma_checksum_self_verify};
use crate::icmp_header::{icmp_data_of, IcmpHeaderData};
use crate::ipv4_header::{ipv4_bytes_of, ipv4_data_of, Ipv4HeaderData};
use vstd::prelude::*;

verus! {

/// The complete IPv4 packet built around one ICMP message `reply`, using
/// the IPv4 field template `template`: the declared total length covers
/// header plus message, and both checksums hold the value the documented
/// algorithm computes over their zeroed scope.
pub open spec fn packetized(template: Ipv4HeaderData, reply: Seq<u8>) -> Seq<u8> {
    let d1 = Ipv4HeaderData { total_length: (20 + reply.len()) as u16, ..template };
    let c4 = checksum_of(ipv4_bytes_of(Ipv4HeaderData { checksum: 0, ..d1 }));
    let icmp_zero = reply.update(2, 0u8).update(3, 0u8);
    let ci = checksum_of(icmp_zero);
    ipv4_bytes_of(Ipv4HeaderData { checksum: c4, ..d1 }) + icmp_zero.update(2, hi8(ci)).update(
        3,
        lo8(ci),
    )
}

/// A well-formed IPv4+ICMP packet for this relay: room for both headers,
/// no IPv4 options, a declared total length that matches the bytes, and
/// the ICMP protocol number.
pub open spec fn well_formed_ipv4_icmp(b: Seq<u8>) -> bool {
    &&& b.len() >= 24
    &&& b.len() <= 0xffff
    &&& b[0] & 0xf == 5
    &&& be16(b[2], b[3]) == b.len()
    &&& b[9] == crate::ipv4_header::PROTOCOL_ICMP
}

/// The round-trip law: parsing a well-formed IPv4+ICMP packet and
/// rewriting it with identical fields reproduces the original bytes
/// exactly, except the two checksum fields, which hold the value computed
/// by the documented algorithm over their zeroed scope.
pub proof fn lemma_parse_rewrite_round_trip(b: Seq<u8>)
    requires
        well_formed_ipv4_icmp(b),
    ensures
        ({
            let r = packetized(ipv4_data_of(b), b.skip(20));
            &&& r.len() == b.len()
            &&& forall|i: int|
                0 <= i < b.len() && i != 10 && i != 11 && i != 22 && i != 23 ==> r[i] == b[i]
            &&& r[10] == hi8(checksum_of(b.subrange(0, 20).update(10, 0u8).update(11, 0u8)))
            &&& r[11] == lo8(checksum_of(b.subrange(0, 20).update(10, 0u8).update(11, 0u8)))
            &&& r[22] == hi8(checksum_of(b.skip(20).update(2, 0u8).update(3, 0u8)))
            &&& r[23] == lo8(checksum_of(b.skip(20).update(2, 0u8).update(3, 0u8)))
        }),
{
    let d4 = ipv4_data_of(b);
    let reply = b.skip(20);
    let d1 = Ipv4HeaderData { total_length: (20 + reply.len()) as u16, ..d4 };
    assert(d4.total_length == b.len());
    assert(d1 == d4);
    crate::ipv4_header::lemma_ipv4_round_trip(b);
    assert(ipv4_bytes_of(Ipv4HeaderData { checksum: 0, ..d4 }) =~= b.subrange(0, 20).update(
        10,
        0u8,
    ).update(11, 0u8));
    let c4 = checksum_of(ipv4_bytes_of(Ipv4HeaderData { checksum: 0, ..d4 }));
    let r = packetized(d4, reply);
    assert(ipv4_bytes_of(Ipv4HeaderData { checksum: c4, ..d4 }) =~= b.subrange(0, 20).update(
        10,
        hi8(c4),
    ).update(11, lo8(c4)));
    assert forall|i: int|
        0 <= i < b.len() && i != 10 && i != 11 && i != 22 && i != 23 implies r[i] == b[i] by {
        if i >= 20 {
            assert(r[i] == reply.update(2, 0u8).update(3, 0u8).update(
                2,
                hi8(checksum_of(reply.update(2, 0u8).update(3, 0u8))),
            ).update(3, lo8(checksum_of(reply.update(2, 0u8).update(3, 0u8))))[i - 20]);
            assert(reply[i - 20] == b[i]);
        }
    }
}

/// Both checksums of a reconstructed packet self-verify: recomputing
/// either checksum over the stamped bytes yields zero.
pub proof fn lemma_packetized_checksums_verify(template: Ipv4HeaderData, reply: Seq<u8>)
    requires
        reply.len() >= 4,
        20 + reply.len() <= 0xffff,
    ensures
        checksum_of(packetized(template, reply).subrange(0, 20)) == 0,
        checksum_of(packetized(template, reply).skip(20)) == 0,
{
    let d1 = Ipv4HeaderData { total_length: (20 + reply.len()) as u16, ..template };
    let z4 = ipv4_bytes_of(Ipv4HeaderData { checksum: 0, ..d1 });
    let c4 = checksum_of(z4);
    assert(word_at(z4, 5) == 0) by {
        assert(z4[10] == hi8(0) && z4[11] == lo8(0));
    }
    lemma_checksum_self_verify(z4, 5);
    let stamped4 = z4.update(10, (c4 / 0x100) as u8).update(11, (c4 % 0x100) as u8);
    assert(stamped4 =~= ipv4_bytes_of(Ipv4HeaderData { checksum: c4, ..d1 }));
    assert(packetized(template, reply).subrange(0, 20) =~= stamped4);

    let zi = reply.update(2, 0u8).update(3, 0u8);
    let ci = checksum_of(zi);
    assert(word_at(zi, 1) == 0);
    assert(2 * 1 + 1 < 2 * (zi.len() / 2));
    lemma_checksum_self_verify(zi, 1);
    let stampedi = zi.update(2, (ci / 0x100) as u8).update(3, (ci % 0x100) as u8);
    assert(packetized(template, reply).skip(20) =~= stampedi);
}

/// Holds the detached header copies recorded when a flow is created, and
/// rebuilds complete IPv4 packets from transport-layer reads.
pub struct Packetizer {
    ipv4_header_data: Ipv4HeaderData,
    icmp_header_data: IcmpHeaderData,
}

impl Packetizer {
    /// The IPv4 field template packets are rebuilt from: the flow's
    /// request header with source and destination exchanged.
    pub closed spec fn ipv4_data_spec(&self) -> Ipv4HeaderData {
        self.ipv4_header_data
    }

    /// The transport header copy recorded at creation.
    pub closed spec fn icmp_data_spec(&self) -> IcmpHeaderData {
        self.icmp_header_data
    }

    /// A usable template: an IPv4 header without options.
    pub open spec fn wf(&self) -> bool {
        self.ipv4_data_spec().wf()
    }

    /// Record the templates of a new flow. The IPv4 source and destination
    /// are exchanged at once: rebuilt packets travel toward the tunnel-side
    /// source, from the address the flow was opened to.
    pub fn new(ipv4_header_data: &Ipv4HeaderData, icmp_header_data: &IcmpHeaderData) -> (r: Self)
        ensures
            r.ipv4_data_spec() == (Ipv4HeaderData {
                source: ipv4_header_data.destination,
                destination: ipv4_header_data.source,
                ..*ipv4_header_data
            }),
            r.icmp_data_spec() == *icmp_header_data,
    {
        let mut d = *ipv4_header_data;
        d.swap_source_and_destination();
        Packetizer { ipv4_header_data: d, icmp_header_data: *icmp_header_data }
    }

    /// Rebuild one complete IPv4 packet around the ICMP message `reply`
    /// read from the real socket: template header, declared length set,
    /// both checksums recomputed.
    pub fn packetize(&self, reply: &[u8]) -> (r: Vec<u8>)
        requires
            self.wf(),
            reply@.len() >= 4,
            20 + reply@.len() <= 0xffff,
        ensures
            r@ == packetized(self.ipv4_data_spec(), reply@),
    {
        let ghost d1s = Ipv4HeaderData {
            total_length: (20 + reply@.len()) as u16,
            ..self.ipv4_header_data
        };
        let mut d1 = self.ipv4_header_data;
        let total: u16 = 20 + (reply.len() as u16);
        d1.set_total_length(total);
        assert(d1 == d1s);
        let mut packet: Vec<u8> = vec![0u8; 20];
        d1.write(&mut packet);
        assert(packet@ =~= ipv4_bytes_of(d1s));
        let ghost written = packet@;
        d1.update_checksum(&mut packet);
        let ghost c4 = checksum_of(ipv4_bytes_of(Ipv4HeaderData { checksum: 0, ..d1s }));
        proof {
            let zeroed = written.update(10, 0u8).update(11, 0u8);
            assert(hi8(0) == 0 && lo8(0) == 0);
            assert(zeroed =~= ipv4_bytes_of(Ipv4HeaderData { checksum: 0, ..d1s }));
            assert(zeroed.subrange(0, 20) =~= zeroed);
            assert(packet@ =~= ipv4_bytes_of(Ipv4HeaderData { checksum: c4, ..d1s }));
        }
        let icmp_hdr_slice = vstd::slice::slice_subrange(reply, 0, 4);
        let payload = vstd::slice::slice_subrange(reply, 4, reply.len());
        let mut icmp_raw: Vec<u8> = Vec::new();
        icmp_raw.extend_from_slice(icmp_hdr_slice);
        assert(icmp_raw@ =~= reply@.subrange(0, 4));
        let data = IcmpHeaderData::parse(reply);
        let mut header = data.bind_mut(icmp_raw);
        header.update_checksum(&d1, payload);
        let (icmp_bytes, _data) = header.unbind();
        let ghost icmp_zero = reply@.update(2, 0u8).update(3, 0u8);
        let ghost ci = checksum_of(icmp_zero);
        proof {
            let zeroed_i = reply@.subrange(0, 4).update(2, 0u8).update(3, 0u8);
            assert(zeroed_i + reply@.subrange(4, reply@.len() as int) =~= icmp_zero);
            assert(icmp_bytes@ == zeroed_i.update(2, hi8(ci)).update(3, lo8(ci)));
        }
        packet.extend_from_slice(icmp_bytes.as_slice());
        packet.extend_from_slice(payload);
        proof {
            assert(packet@ =~= packetized(self.ipv4_data_spec(), reply@));
        }
        packet
    }
}

} // verus!
