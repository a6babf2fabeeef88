//! ELAP: the 802.2 SNAP framing that carries AppleTalk over Ethernet.
use vstd::prelude::*;

use crate::addr::{Ethertype, Mac, Sap, lemma_mac_bytes_injective, SNAP_PROTOCOL};
use crate::wire::{be16, from_be16, lemma_be16_bytes_round_trip, lemma_be16_round_trip};
use crate::{CrabbletalkError, UnpackSplit};

verus! {

broadcast use vstd::array::group_array_axioms;

/// The size of an ELAP header.
pub const ELAP_SIZE: usize = 22;

/// The largest ELAP length field that the link carries.
pub const ELAP_MAX_LENGTH: u16 = 1600;

/// A complete frame, as handed to and taken from the transport.
#[derive(Debug, Clone)]
pub struct AppletalkPacket(pub Vec<u8>);

/// A seven-bit service access point and its one-bit flag, packed in one byte.
pub open spec fn sap_byte(sap: Sap, flag: bool) -> u8 {
    (sap.protocol * 2 + if flag { 1int } else { 0int }) as u8
}

/// An ELAP header.
#[derive(Debug, Clone, Copy)]
pub struct Elap {
    pub destination: Mac,
    pub source: Mac,
    pub length: u16,
    pub dsap: Sap,
    pub ig: bool,
    pub ssap: Sap,
    pub cr: bool,
    pub control: u8,
    pub oui: [u8; 3],
    pub ethertype: Ethertype,
}

impl Elap {
    /// The access points fit their seven bits.
    pub open spec fn wf(self) -> bool {
        self.dsap.protocol < 128 && self.ssap.protocol < 128
    }

    /// The header's bytes on the wire.
    pub open spec fn spec_pack(self) -> Seq<u8> {
        self.destination.spec_bytes() + self.source.spec_bytes() + be16(self.length) + seq![
            sap_byte(self.dsap, self.ig),
            sap_byte(self.ssap, self.cr),
            self.control,
        ] + self.oui@ + be16(self.ethertype.protocol)
    }

    /// Encodes the header.
    pub fn pack(&self) -> (r: Vec<u8>)
        requires
            self.wf(),
        ensures
            r@ == self.spec_pack(),
    {
        let mut out: Vec<u8> = Vec::new();
        self.destination.push_to(&mut out);
        self.source.push_to(&mut out);
        crate::wire::push_u16(&mut out, self.length);
        out.push(self.dsap.protocol * 2 + if self.ig { 1 } else { 0 });
        out.push(self.ssap.protocol * 2 + if self.cr { 1 } else { 0 });
        out.push(self.control);
        out.push(self.oui[0]);
        out.push(self.oui[1]);
        out.push(self.oui[2]);
        crate::wire::push_u16(&mut out, self.ethertype.protocol);
        assert(out@ =~= self.spec_pack());
        out
    }
}

impl UnpackSplit for Elap {
    open spec fn packed_size() -> nat {
        22
    }

    open spec fn accepts(data: Seq<u8>) -> bool {
        true
    }

    open spec fn decoded_from(self, b: Seq<u8>) -> bool {
        &&& b.len() >= 22
        &&& self.destination.spec_bytes() == b.subrange(0, 6)
        &&& self.source.spec_bytes() == b.subrange(6, 12)
        &&& self.length == from_be16(b[12], b[13])
        &&& self.dsap.protocol == b[14] / 2
        &&& self.ig == (b[14] % 2 == 1)
        &&& self.ssap.protocol == b[15] / 2
        &&& self.cr == (b[15] % 2 == 1)
        &&& self.control == b[16]
        &&& self.oui@ == b.subrange(17, 20)
        &&& self.ethertype.protocol == from_be16(b[20], b[21])
    }

    fn unpack_split<'d>(data: &'d [u8]) -> (r: Result<(Elap, &'d [u8]), CrabbletalkError>) {
        if data.len() < ELAP_SIZE {
            return Err(CrabbletalkError::MalformedFrame);
        }
        let e = Elap {
            destination: Mac::from_bytes(data, 0),
            source: Mac::from_bytes(data, 6),
            length: crate::wire::get_u16(data, 12),
            dsap: Sap { protocol: data[14] / 2 },
            ig: data[14] % 2 == 1,
            ssap: Sap { protocol: data[15] / 2 },
            cr: data[15] % 2 == 1,
            control: data[16],
            oui: [data[17], data[18], data[19]],
            ethertype: Ethertype { protocol: crate::wire::get_u16(data, 20) },
        };
        assert(e.oui@ =~= data@.subrange(17, 20));
        let (_, rest) = data.split_at(ELAP_SIZE);
        Ok((e, rest))
    }
}

/// The bytes of an ELAP header for AppleTalk traffic: both access points SNAP,
/// both flags clear, control 3.
pub open spec fn snap_header_spec(
    dest: Seq<u8>,
    src: Seq<u8>,
    length: u16,
    oui: Seq<u8>,
    ethertype: u16,
) -> Seq<u8> {
    dest + src + be16(length) + seq![0xAAu8, 0xAAu8, 3u8] + oui + be16(ethertype)
}

/// An ELAP header for AppleTalk traffic from `src` to `dest`.
pub fn snap_header(dest: Mac, src: Mac, length: u16, oui: [u8; 3], ethertype: u16) -> (r: Elap)
    ensures
        r.wf(),
        r.destination == dest,
        r.source == src,
        r.length == length,
        r.dsap.protocol == SNAP_PROTOCOL,
        r.ssap.protocol == SNAP_PROTOCOL,
        r.oui == oui,
        r.ethertype.protocol == ethertype,
        r.spec_pack() == snap_header_spec(dest.spec_bytes(), src.spec_bytes(), length, oui@, ethertype),
{
    let r = Elap {
        destination: dest,
        source: src,
        length,
        dsap: Sap::snap(),
        ig: false,
        ssap: Sap::snap(),
        cr: false,
        control: 3,
        oui,
        ethertype: Ethertype { protocol: ethertype },
    };
    assert(r.spec_pack() =~= snap_header_spec(dest.spec_bytes(), src.spec_bytes(), length, oui@, ethertype));
    r
}

/// Decoding the bytes of a valid header gives that header back.
pub proof fn lemma_elap_round_trip(x: Elap, y: Elap)
    requires
        x.wf(),
        y.decoded_from(x.spec_pack()),
    ensures
        y == x,
{
    let b = x.spec_pack();
    assert(b.subrange(0, 6) =~= x.destination.spec_bytes());
    assert(b.subrange(6, 12) =~= x.source.spec_bytes());
    assert(b.subrange(17, 20) =~= x.oui@);
    lemma_mac_bytes_injective(y.destination, x.destination);
    lemma_mac_bytes_injective(y.source, x.source);
    assert(y.oui =~= x.oui);
    lemma_be16_round_trip(x.length);
    lemma_be16_round_trip(x.ethertype.protocol);
}

/// Encoding a decoded header gives back the bytes it was decoded from.
pub proof fn lemma_elap_bytes_round_trip(b: Seq<u8>, y: Elap)
    requires
        y.decoded_from(b),
    ensures
        y.wf(),
        y.spec_pack() == b.subrange(0, 22),
{
    lemma_be16_bytes_round_trip(b[12], b[13]);
    lemma_be16_bytes_round_trip(b[20], b[21]);
    assert(y.spec_pack() =~= b.subrange(0, 22));
}

} // verus!
