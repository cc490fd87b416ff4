//! The ICMP header codec: a detached, owned copy of the header fields
//! (`IcmpHeaderData`), read-only and mutable bindings of that copy to a
//! byte buffer, and checksum recomputation over header plus payload.

use crate::binary::{be16, hi8, lo8, read_u16, write_u16};
use crate::checksum::{checksum_of, compute_checksum};
use crate::ipv4_header::Ipv4HeaderData;
use vstd::prelude::*;

verus! {

/// Size of the ICMP header prefix handled here: type, code, checksum.
pub const ICMP_HEADER_LENGTH: u8 = 4;

/// A read-only binding of an owned field copy to the header's bytes.
#[derive(Debug)]
pub struct IcmpHeader<'a> {
    raw: &'a [u8],
    data: &'a IcmpHeaderData,
}

/// A mutable binding: it owns the header bytes and the field copy for the
/// duration of an edit, so no second binding can alias them.
#[derive(Debug)]
pub struct IcmpHeaderMut {
    raw: Vec<u8>,
    data: IcmpHeaderData,
}

/// A detached, owned copy of the fields of one ICMP header.
#[derive(Clone, Copy, Debug, PartialEq, Eq, Structural)]
pub struct IcmpHeaderData {
    pub icmp_type: u8,
    pub icmp_code: u8,
    pub checksum: u16,
}

/// The fields encoded by the first 4 bytes of `b`.
pub open spec fn icmp_data_of(b: Seq<u8>) -> IcmpHeaderData {
    IcmpHeaderData { icmp_type: b[0], icmp_code: b[1], checksum: be16(b[2], b[3]) }
}

/// The 4 bytes that encode `d`.
pub open spec fn icmp_bytes_of(d: IcmpHeaderData) -> Seq<u8> {
    seq![d.icmp_type, d.icmp_code, hi8(d.checksum), lo8(d.checksum)]
}

/// Serializing the parse of a 4-byte ICMP header reproduces its bytes.
pub proof fn lemma_icmp_round_trip(b: Seq<u8>)
    requires
        b.len() >= 4,
    ensures
        icmp_bytes_of(icmp_data_of(b)) == b.subrange(0, 4),
{
    crate::binary::lemma_be16_inverse(b[2], b[3]);
    assert(icmp_bytes_of(icmp_data_of(b)) =~= b.subrange(0, 4));
}

impl IcmpHeaderData {
    /// The ICMP type field.
    pub open spec fn icmp_type_spec(&self) -> u8 {
        self.icmp_type
    }

    /// The ICMP code field.
    pub open spec fn icmp_code_spec(&self) -> u8 {
        self.icmp_code
    }

    /// Parse the owned field copy out of the first 4 bytes of `raw`.
    pub fn parse(raw: &[u8]) -> (r: Self)
        requires
            raw@.len() >= 4,
        ensures
            r == icmp_data_of(raw@),
    {
        IcmpHeaderData {
            icmp_type: raw[0],
            icmp_code: raw[1],
            checksum: read_u16(raw, 2),
        }
    }

    /// Bind this copy read-only to the header's bytes.
    pub fn bind<'c, 'a: 'c, 'b: 'c>(&'a self, raw: &'b [u8]) -> (r: IcmpHeader<'c>)
        ensures
            r.raw_spec() == raw@,
            r.data_spec() == *self,
    {
        IcmpHeader::new(raw, self)
    }

    /// Bind this copy mutably to the header's bytes. The binding takes
    /// ownership of both, so only one mutable binding can exist at a time;
    /// `IcmpHeaderMut::unbind` gives them back.
    pub fn bind_mut(self, raw: Vec<u8>) -> (r: IcmpHeaderMut)
        ensures
            r.raw_spec() == raw@,
            r.data_spec() == self,
    {
        IcmpHeaderMut::new(raw, self)
    }

    /// The ICMP type field.
    pub fn icmp_type(&self) -> (r: u8)
        ensures
            r == self.icmp_type_spec(),
    {
        self.icmp_type
    }

    /// The ICMP code field.
    pub fn icmp_code(&self) -> (r: u8)
        ensures
            r == self.icmp_code_spec(),
    {
        self.icmp_code
    }
}

impl<'a> IcmpHeader<'a> {
    /// The bytes this binding reads.
    pub closed spec fn raw_spec(&self) -> Seq<u8> {
        self.raw@
    }

    /// The bound field copy.
    pub closed spec fn data_spec(&self) -> IcmpHeaderData {
        *self.data
    }

    pub fn new(raw: &'a [u8], data: &'a IcmpHeaderData) -> (r: Self)
        ensures
            r.raw_spec() == raw@,
            r.data_spec() == *data,
    {
        Self { raw, data }
    }

    /// The bytes this binding reads.
    pub fn raw(&self) -> (r: &[u8])
        ensures
            r@ == self.raw_spec(),
    {
        self.raw
    }

    /// The bound field copy.
    pub fn data(&self) -> (r: &IcmpHeaderData)
        ensures
            *r == self.data_spec(),
    {
        self.data
    }

    /// The ICMP type field of the bound copy.
    pub fn icmp_type(&self) -> (r: u8)
        ensures
            r == self.data_spec().icmp_type_spec(),
    {
        self.data.icmp_type
    }

    /// The ICMP code field of the bound copy.
    pub fn icmp_code(&self) -> (r: u8)
        ensures
            r == self.data_spec().icmp_code_spec(),
    {
        self.data.icmp_code
    }
}

impl IcmpHeaderMut {
    /// The bytes this binding edits.
    pub closed spec fn raw_spec(&self) -> Seq<u8> {
        self.raw@
    }

    /// The bound field copy.
    pub closed spec fn data_spec(&self) -> IcmpHeaderData {
        self.data
    }

    pub fn new(raw: Vec<u8>, data: IcmpHeaderData) -> (r: Self)
        ensures
            r.raw_spec() == raw@,
            r.data_spec() == data,
    {
        Self { raw, data }
    }

    /// Release the binding, handing back the bytes and the field copy.
    pub fn unbind(self) -> (r: (Vec<u8>, IcmpHeaderData))
        ensures
            r.0@ == self.raw_spec(),
            r.1 == self.data_spec(),
    {
        (self.raw, self.data)
    }

    /// The bytes this binding edits.
    pub fn raw(&self) -> (r: &[u8])
        ensures
            r@ == self.raw_spec(),
    {
        self.raw.as_slice()
    }

    /// The bound field copy.
    pub fn data(&self) -> (r: &IcmpHeaderData)
        ensures
            *r == self.data_spec(),
    {
        &self.data
    }

    /// The ICMP type field of the bound copy.
    pub fn icmp_type(&self) -> (r: u8)
        ensures
            r == self.data_spec().icmp_type_spec(),
    {
        self.data.icmp_type
    }

    /// The ICMP code field of the bound copy.
    pub fn icmp_code(&self) -> (r: u8)
        ensures
            r == self.data_spec().icmp_code_spec(),
    {
        self.data.icmp_code
    }

    /// Mutable access to the bound bytes.
    pub fn raw_mut(&mut self) -> (r: &mut Vec<u8>)
        ensures
            r@ == old(self).raw_spec(),
            final(self).data_spec() == old(self).data_spec(),
            final(self).raw_spec() == final(r)@,
    {
        &mut self.raw
    }

    /// Mutable access to the bound field copy.
    pub fn data_mut(&mut self) -> (r: &mut IcmpHeaderData)
        ensures
            *r == old(self).data_spec(),
            final(self).raw_spec() == old(self).raw_spec(),
            final(self).data_spec() == *final(r),
    {
        &mut self.data
    }

    /// Set the ICMP type, in the field copy and in the bytes.
    pub fn set_icmp_type(&mut self, icmp_type: u8)
        requires
            old(self).raw_spec().len() >= 4,
        ensures
            final(self).data_spec() == (IcmpHeaderData { icmp_type, ..old(self).data_spec() }),
            final(self).raw_spec() == old(self).raw_spec().update(0, icmp_type),
    {
        self.data.icmp_type = icmp_type;
        self.raw.set(0, icmp_type);
    }

    /// Set the ICMP code, in the field copy and in the bytes.
    pub fn set_icmp_code(&mut self, icmp_code: u8)
        requires
            old(self).raw_spec().len() >= 4,
        ensures
            final(self).data_spec() == (IcmpHeaderData { icmp_code, ..old(self).data_spec() }),
            final(self).raw_spec() == old(self).raw_spec().update(1, icmp_code),
    {
        self.data.icmp_code = icmp_code;
        self.raw.set(1, icmp_code);
    }

    /// Stamp a checksum value into the bytes (the field copy keeps the
    /// value it was parsed with; the wire bytes are what leave the system).
    fn set_checksum(&mut self, checksum: u16)
        requires
            old(self).raw_spec().len() >= 4,
        ensures
            final(self).data_spec() == old(self).data_spec(),
            final(self).raw_spec() == old(self).raw_spec().update(2, hi8(checksum)).update(
                3,
                lo8(checksum),
            ),
    {
        write_u16(&mut self.raw, 2, checksum);
    }

    /// Zero the checksum bytes, recompute the checksum by the documented
    /// algorithm over the transport-length-derived range of header plus
    /// payload, and stamp it into the bytes.
    pub fn update_checksum(&mut self, ipv4_header_data: &Ipv4HeaderData, payload: &[u8])
        requires
            old(self).raw_spec().len() == 4,
            ipv4_header_data.wf(),
            ipv4_header_data.total_length - ipv4_header_data.header_length_spec() == 4
                + payload@.len(),
        ensures
            ({
                let zeroed = old(self).raw_spec().update(2, 0u8).update(3, 0u8);
                let c = checksum_of(zeroed + payload@);
                &&& final(self).data_spec() == old(self).data_spec()
                &&& final(self).raw_spec() == zeroed.update(2, hi8(c)).update(3, lo8(c))
            }),
    {
        self.set_checksum(0);
        assert(hi8(0) == 0 && lo8(0) == 0);
        let transport_length = ipv4_header_data.total_length() - (ipv4_header_data.header_length()
            as u16);
        let mut scope: Vec<u8> = Vec::new();
        scope.extend_from_slice(self.raw.as_slice());
        scope.extend_from_slice(payload);
        assert(scope@ == self.raw@ + payload@);
        assert(scope@.len() == transport_length);
        let checksum = compute_checksum(scope.as_slice());
        self.set_checksum(checksum);
    }
}

} // verus!
