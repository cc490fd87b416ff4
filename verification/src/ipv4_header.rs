//! The IPv4 header codec: a detached, owned copy of every header field
//! (`Ipv4HeaderData`), parsed from and written back to a 20-byte header,
//! with the header checksum recomputed by the documented algorithm.

use crate::binary::{be16, be32, hi8, lo8, hi16, lo16, read_u16, read_u32, write_u16, write_u32};
use crate::checksum::{checksum_of, compute_checksum};
use vstd::pervasive::VecAdditionalExecFns;
use vstd::prelude::*;

verus! {

/// Fixed size of an IPv4 header without options.
pub const IPV4_HEADER_LENGTH: u8 = 20;

/// Protocol number carried by the IPv4 header for ICMP.
pub const PROTOCOL_ICMP: u8 = 1;

/// A detached, owned copy of the fields of one IPv4 header.
#[derive(Clone, Copy, Debug, PartialEq, Eq, Structural)]
pub struct Ipv4HeaderData {
    pub version_ihl: u8,
    pub tos: u8,
    pub total_length: u16,
    pub id: u16,
    pub flags_fragment: u16,
    pub ttl: u8,
    pub protocol: u8,
    pub checksum: u16,
    pub source: u32,
    pub destination: u32,
}

/// The fields encoded by the first 20 bytes of `b`.
pub open spec fn ipv4_data_of(b: Seq<u8>) -> Ipv4HeaderData {
    Ipv4HeaderData {
        version_ihl: b[0],
        tos: b[1],
        total_length: be16(b[2], b[3]),
        id: be16(b[4], b[5]),
        flags_fragment: be16(b[6], b[7]),
        ttl: b[8],
        protocol: b[9],
        checksum: be16(b[10], b[11]),
        source: be32(b[12], b[13], b[14], b[15]),
        destination: be32(b[16], b[17], b[18], b[19]),
    }
}

/// The 20 bytes that encode `d`.
pub open spec fn ipv4_bytes_of(d: Ipv4HeaderData) -> Seq<u8> {
    seq![
        d.version_ihl,
        d.tos,
        hi8(d.total_length),
        lo8(d.total_length),
        hi8(d.id),
        lo8(d.id),
        hi8(d.flags_fragment),
        lo8(d.flags_fragment),
        d.ttl,
        d.protocol,
        hi8(d.checksum),
        lo8(d.checksum),
        hi8(hi16(d.source)),
        lo8(hi16(d.source)),
        hi8(lo16(d.source)),
        lo8(lo16(d.source)),
        hi8(hi16(d.destination)),
        lo8(hi16(d.destination)),
        hi8(lo16(d.destination)),
        lo8(lo16(d.destination)),
    ]
}

/// Serializing the parse of a 20-byte header reproduces its bytes.
pub proof fn lemma_ipv4_round_trip(b: Seq<u8>)
    requires
        b.len() >= 20,
    ensures
        ipv4_bytes_of(ipv4_data_of(b)) == b.subrange(0, 20),
{
    let d = ipv4_data_of(b);
    crate::binary::lemma_be16_inverse(b[2], b[3]);
    crate::binary::lemma_be16_inverse(b[4], b[5]);
    crate::binary::lemma_be16_inverse(b[6], b[7]);
    crate::binary::lemma_be16_inverse(b[10], b[11]);
    crate::binary::lemma_be16_inverse(b[12], b[13]);
    crate::binary::lemma_be16_inverse(b[14], b[15]);
    crate::binary::lemma_be16_inverse(b[16], b[17]);
    crate::binary::lemma_be16_inverse(b[18], b[19]);
    crate::binary::lemma_be32_inverse(be16(b[12], b[13]), be16(b[14], b[15]));
    crate::binary::lemma_be32_inverse(be16(b[16], b[17]), be16(b[18], b[19]));
    assert(ipv4_bytes_of(d) =~= b.subrange(0, 20));
}

impl Ipv4HeaderData {
    /// The header length declared by the version/IHL byte, in bytes.
    pub open spec fn header_length_spec(&self) -> int {
        (self.version_ihl & 0xf) * 4
    }

    /// Well-formed for this relay: an IPv4 header without options whose
    /// declared total length covers at least the header itself.
    pub open spec fn wf(&self) -> bool {
        &&& self.version_ihl & 0xf == 5
        &&& self.total_length >= 20
    }

    /// Parse the owned field copy out of the first 20 bytes of `raw`.
    pub fn parse(raw: &[u8]) -> (r: Self)
        requires
            raw@.len() >= 20,
        ensures
            r == ipv4_data_of(raw@),
    {
        Ipv4HeaderData {
            version_ihl: raw[0],
            tos: raw[1],
            total_length: read_u16(raw, 2),
            id: read_u16(raw, 4),
            flags_fragment: read_u16(raw, 6),
            ttl: raw[8],
            protocol: raw[9],
            checksum: read_u16(raw, 10),
            source: read_u32(raw, 12),
            destination: read_u32(raw, 16),
        }
    }

    /// The header length in bytes, read from the version/IHL byte.
    pub fn header_length(&self) -> (r: u8)
        ensures
            r == self.header_length_spec(),
    {
        let v = self.version_ihl;
        assert(v & 0xf <= 0xf) by (bit_vector);
        (v & 0xf) * 4
    }

    /// The declared total packet length.
    pub fn total_length(&self) -> (r: u16)
        ensures
            r == self.total_length,
    {
        self.total_length
    }

    /// The transport protocol number.
    pub fn protocol(&self) -> (r: u8)
        ensures
            r == self.protocol,
    {
        self.protocol
    }

    /// The source address.
    pub fn source(&self) -> (r: u32)
        ensures
            r == self.source,
    {
        self.source
    }

    /// The destination address.
    pub fn destination(&self) -> (r: u32)
        ensures
            r == self.destination,
    {
        self.destination
    }

    /// Set the declared total packet length.
    pub fn set_total_length(&mut self, total_length: u16)
        ensures
            *final(self) == (Ipv4HeaderData { total_length, ..*old(self) }),
    {
        self.total_length = total_length;
    }

    /// Exchange source and destination, as packet reconstruction does when
    /// turning a request template into a reply header.
    pub fn swap_source_and_destination(&mut self)
        ensures
            *final(self) == (Ipv4HeaderData {
                source: old(self).destination,
                destination: old(self).source,
                ..*old(self)
            }),
    {
        let s = self.source;
        self.source = self.destination;
        self.destination = s;
    }

    /// Write all fields into the first 20 bytes of `raw`; bytes past the
    /// header are untouched.
    pub fn write(&self, raw: &mut Vec<u8>)
        requires
            old(raw)@.len() >= 20,
        ensures
            final(raw)@.len() == old(raw)@.len(),
            final(raw)@.subrange(0, 20) == ipv4_bytes_of(*self),
            final(raw)@.skip(20) == old(raw)@.skip(20),
    {
        raw.set(0, self.version_ihl);
        raw.set(1, self.tos);
        write_u16(raw, 2, self.total_length);
        write_u16(raw, 4, self.id);
        write_u16(raw, 6, self.flags_fragment);
        raw.set(8, self.ttl);
        raw.set(9, self.protocol);
        write_u16(raw, 10, self.checksum);
        write_u32(raw, 12, self.source);
        write_u32(raw, 16, self.destination);
        assert(raw@.subrange(0, 20) =~= ipv4_bytes_of(*self));
        assert(raw@.skip(20) =~= old(raw)@.skip(20));
    }

    /// Zero the checksum bytes of `raw`, recompute the checksum over the
    /// header bytes by the documented algorithm, and stamp it into both
    /// `raw` and this copy.
    pub fn update_checksum(&mut self, raw: &mut Vec<u8>)
        requires
            old(self).wf(),
            old(raw)@.len() >= 20,
            old(raw)@.len() <= 0xffff,
        ensures
            ({
                let zeroed = old(raw)@.update(10, 0u8).update(11, 0u8);
                let c = checksum_of(zeroed.subrange(0, 20));
                &&& *final(self) == (Ipv4HeaderData { checksum: c, ..*old(self) })
                &&& final(raw)@ == zeroed.update(10, hi8(c)).update(11, lo8(c))
            }),
    {
        write_u16(raw, 10, 0);
        assert(hi8(0) == 0 && lo8(0) == 0);
        let header = vstd::slice::slice_subrange(raw.as_slice(), 0, 20);
        let c = compute_checksum(header);
        write_u16(raw, 10, c);
        self.checksum = c;
        proof {
            let zeroed = old(raw)@.update(10, 0u8).update(11, 0u8);
            assert(raw@ =~= zeroed.update(10, hi8(c)).update(11, lo8(c)));
        }
    }
}

} // verus!
