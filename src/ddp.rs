//! DDP: the datagram header, its checksum, and the per-socket endpoint.
use vstd::prelude::*;

use crate::addr::{Appletalk, AppletalkNode, AppletalkSocket, DdpType};
use crate::wire::{be16, from_be16, lemma_be16_bytes_round_trip, lemma_be16_round_trip};
use crate::{CrabbletalkError, UnpackSplit};

verus! {

/// The size of a long-form DDP header.
pub const DDP_SIZE: usize = 13;

/// `x` rotated left by one bit.
pub open spec fn rotl1(x: u16) -> u16 {
    if x >= 0x8000 {
        ((x - 0x8000) * 2 + 1) as u16
    } else {
        (x * 2) as u16
    }
}

/// The running sum of the checksum: add each byte (modulo 2^16), then rotate
/// left by one bit.
pub open spec fn rotate_add(s: Seq<u8>) -> u16
    decreases s.len(),
{
    if s.len() == 0 {
        0
    } else {
        rotl1(((rotate_add(s.drop_last()) + s.last()) % 0x10000) as u16)
    }
}

/// The DDP checksum: the running sum, with 0 (which means "no checksum")
/// replaced by 0xFFFF.
pub open spec fn checksum_spec(s: Seq<u8>) -> u16 {
    if rotate_add(s) == 0 {
        0xFFFF
    } else {
        rotate_add(s)
    }
}

/// The DDP checksum of `bytes`.
pub fn ddp_checksum(bytes: &[u8]) -> (r: u16)
    ensures
        r == checksum_spec(bytes@),
{
    let mut ret: u16 = 0;
    let mut i: usize = 0;
    while i < bytes.len()
        invariant
            i <= bytes@.len(),
            ret == rotate_add(bytes@.subrange(0, i as int)),
        decreases bytes@.len() - i,
    {
        assert(bytes@.subrange(0, i + 1).drop_last() =~= bytes@.subrange(0, i as int));
        let s = ret.wrapping_add(bytes[i] as u16);
        ret = if s >= 0x8000 {
            (s - 0x8000) * 2 + 1
        } else {
            s * 2
        };
        i = i + 1;
    }
    assert(bytes@.subrange(0, i as int) =~= bytes@);
    if ret == 0 {
        0xffff
    } else {
        ret
    }
}

/// The checksum of empty input is 0xFFFF.
pub proof fn lemma_checksum_empty()
    ensures
        checksum_spec(Seq::<u8>::empty()) == 0xFFFF,
{
}

/// Where the running sum is not zero, the checksum is that sum; it is never 0.
pub proof fn lemma_checksum_nonzero(s: Seq<u8>)
    ensures
        rotate_add(s) != 0 ==> checksum_spec(s) == rotate_add(s),
        checksum_spec(s) != 0,
{
}

/// A long-form DDP header.
#[derive(Debug, Clone, Copy)]
pub struct Ddp {
    pub hop_count: u8,
    pub length: u16,
    pub checksum: u16,
    pub dest_net: u16,
    pub src_net: u16,
    pub dest_node: AppletalkNode,
    pub src_node: AppletalkNode,
    pub dest_socket: AppletalkSocket,
    pub src_socket: AppletalkSocket,
    pub typ: DdpType,
}

impl Ddp {
    /// The fields fit their widths and the enumerations hold their own values.
    pub open spec fn wf(self) -> bool {
        &&& self.hop_count < 16
        &&& self.length <= 1023
        &&& self.dest_node.wf()
        &&& self.src_node.wf()
        &&& self.dest_socket.wf()
        &&& self.src_socket.wf()
    }

    /// The header's bytes on the wire; the two reserved bits are zero.
    pub open spec fn spec_pack(self) -> Seq<u8> {
        seq![
            (self.hop_count * 4 + self.length / 256) as u8,
            (self.length % 256) as u8,
        ] + be16(self.checksum) + be16(self.dest_net) + be16(self.src_net) + seq![
            self.dest_node.spec_to_u8(),
            self.src_node.spec_to_u8(),
            self.dest_socket.spec_to_u8(),
            self.src_socket.spec_to_u8(),
            self.typ.typ,
        ]
    }

    pub open spec fn spec_source(self) -> Appletalk {
        Appletalk { net: self.src_net, node: self.src_node }
    }

    pub open spec fn spec_destination(self) -> Appletalk {
        Appletalk { net: self.dest_net, node: self.dest_node }
    }

    /// Whether the stored checksum admits a received datagram. A stored 0
    /// means "not checked" and admits anything. Otherwise it must be the
    /// checksum of `covered`, the bytes the protocol sums (from the
    /// destination network field to the end of the datagram), or of
    /// `payload` alone, which is what this stack stores in what it sends.
    pub open spec fn spec_checksum_accepts(self, covered: Seq<u8>, payload: Seq<u8>) -> bool {
        ||| self.checksum == 0
        ||| self.checksum == checksum_spec(covered)
        ||| self.checksum == checksum_spec(payload)
    }

    /// Encodes the header.
    pub fn pack(&self) -> (r: Vec<u8>)
        requires
            self.hop_count < 16,
            self.length <= 1023,
        ensures
            r@ == self.spec_pack(),
    {
        let mut out: Vec<u8> = Vec::new();
        out.push(self.hop_count * 4 + (self.length / 256) as u8);
        out.push((self.length % 256) as u8);
        crate::wire::push_u16(&mut out, self.checksum);
        crate::wire::push_u16(&mut out, self.dest_net);
        crate::wire::push_u16(&mut out, self.src_net);
        out.push(self.dest_node.to_primitive());
        out.push(self.src_node.to_primitive());
        out.push(self.dest_socket.to_primitive());
        out.push(self.src_socket.to_primitive());
        out.push(self.typ.typ);
        assert(out@ =~= self.spec_pack());
        out
    }

    pub fn source(&self) -> (r: Appletalk)
        ensures
            r == self.spec_source(),
    {
        Appletalk { net: self.src_net, node: self.src_node }
    }

    pub fn set_source(&mut self, addr: Appletalk)
        ensures
            *final(self) == (Ddp { src_net: addr.net, src_node: addr.node, ..*old(self) }),
    {
        self.src_net = addr.net;
        self.src_node = addr.node;
    }

    pub fn destination(&self) -> (r: Appletalk)
        ensures
            r == self.spec_destination(),
    {
        Appletalk { net: self.dest_net, node: self.dest_node }
    }

    pub fn set_destination(&mut self, addr: Appletalk)
        ensures
            *final(self) == (Ddp { dest_net: addr.net, dest_node: addr.node, ..*old(self) }),
    {
        self.dest_net = addr.net;
        self.dest_node = addr.node;
    }

    /// Stores the checksum of `buf`.
    pub fn set_checksum_from(&mut self, buf: &[u8])
        ensures
            *final(self) == (Ddp { checksum: checksum_spec(buf@), ..*old(self) }),
    {
        self.checksum = ddp_checksum(buf);
    }

    /// Whether the stored checksum admits a received datagram whose summed
    /// bytes are `covered` and whose payload is `payload`.
    pub fn checksum_accepts(&self, covered: &[u8], payload: &[u8]) -> (r: bool)
        ensures
            r == self.spec_checksum_accepts(covered@, payload@),
    {
        self.checksum == 0 || self.checksum == ddp_checksum(covered) || self.checksum
            == ddp_checksum(payload)
    }
}

/// A stored checksum of 0 admits every payload.
pub proof fn lemma_zero_checksum_admits_all(d: Ddp, covered: Seq<u8>, payload: Seq<u8>)
    requires
        d.checksum == 0,
    ensures
        d.spec_checksum_accepts(covered, payload),
{
}

impl UnpackSplit for Ddp {
    open spec fn packed_size() -> nat {
        13
    }

    open spec fn accepts(data: Seq<u8>) -> bool {
        true
    }

    open spec fn decoded_from(self, b: Seq<u8>) -> bool {
        &&& b.len() >= 13
        &&& self.hop_count == (b[0] / 4) % 16
        &&& self.length == (b[0] % 4) * 256 + b[1]
        &&& self.checksum == from_be16(b[2], b[3])
        &&& self.dest_net == from_be16(b[4], b[5])
        &&& self.src_net == from_be16(b[6], b[7])
        &&& self.dest_node == AppletalkNode::spec_from_u8(b[8])
        &&& self.src_node == AppletalkNode::spec_from_u8(b[9])
        &&& self.dest_socket == AppletalkSocket::spec_from_u8(b[10])
        &&& self.src_socket == AppletalkSocket::spec_from_u8(b[11])
        &&& self.typ.typ == b[12]
    }

    fn unpack_split<'d>(data: &'d [u8]) -> (r: Result<(Ddp, &'d [u8]), CrabbletalkError>) {
        if data.len() < DDP_SIZE {
            return Err(CrabbletalkError::MalformedFrame);
        }
        let d = Ddp {
            hop_count: (data[0] / 4) % 16,
            length: ((data[0] % 4) as u16) * 256 + data[1] as u16,
            checksum: crate::wire::get_u16(data, 2),
            dest_net: crate::wire::get_u16(data, 4),
            src_net: crate::wire::get_u16(data, 6),
            dest_node: AppletalkNode::from_primitive(data[8]).unwrap(),
            src_node: AppletalkNode::from_primitive(data[9]).unwrap(),
            dest_socket: AppletalkSocket::from_primitive(data[10]).unwrap(),
            src_socket: AppletalkSocket::from_primitive(data[11]).unwrap(),
            typ: DdpType { typ: data[12] },
        };
        let (_, rest) = data.split_at(DDP_SIZE);
        Ok((d, rest))
    }
}

/// Decoding the bytes of a valid header gives that header back.
pub proof fn lemma_ddp_round_trip(x: Ddp, y: Ddp)
    requires
        x.wf(),
        y.decoded_from(x.spec_pack()),
    ensures
        y == x,
{
    lemma_be16_round_trip(x.checksum);
    lemma_be16_round_trip(x.dest_net);
    lemma_be16_round_trip(x.src_net);
}

/// Encoding a decoded header gives back the bytes it was decoded from, where
/// the two reserved bits are zero.
pub proof fn lemma_ddp_bytes_round_trip(b: Seq<u8>, y: Ddp)
    requires
        y.decoded_from(b),
        b[0] < 64,
    ensures
        y.wf(),
        y.spec_pack() == b.subrange(0, 13),
{
    lemma_be16_bytes_round_trip(b[2], b[3]);
    lemma_be16_bytes_round_trip(b[4], b[5]);
    lemma_be16_bytes_round_trip(b[6], b[7]);
    assert(y.spec_pack() =~= b.subrange(0, 13));
}

/// The addressing of a datagram as one endpoint sees it: the far address,
/// the far socket and the type.
#[derive(Debug, Clone, Copy)]
pub struct DdpHeader {
    pub addr: Appletalk,
    pub socket: AppletalkSocket,
    pub typ: DdpType,
}

/// A DDP endpoint: the local address and socket it is bound to.
#[derive(Debug, Clone, Copy)]
pub struct DdpSocket {
    pub addr: Appletalk,
    pub socket: AppletalkSocket,
}

impl DdpSocket {
    pub fn local_addr(&self) -> (r: Appletalk)
        ensures
            r == self.addr,
    {
        self.addr
    }

    pub fn local_socket(&self) -> (r: AppletalkSocket)
        ensures
            r == self.socket,
    {
        self.socket
    }

    /// The datagram that sending `buf` to `dest` hands to the stack: the
    /// destination, the type, this socket as source and the payload's
    /// checksum; the stack fills in the source address and the length.
    pub fn sendto(&self, buf: &[u8], dest: DdpHeader) -> (r: (Ddp, Vec<u8>))
        ensures
            r.0 == (Ddp {
                hop_count: 0,
                length: 0,
                checksum: checksum_spec(buf@),
                dest_net: dest.addr.net,
                src_net: 0,
                dest_node: dest.addr.node,
                src_node: AppletalkNode::Unknown,
                dest_socket: dest.socket,
                src_socket: self.socket,
                typ: dest.typ,
            }),
            r.1@ == buf@,
    {
        let header = Ddp {
            hop_count: 0,
            length: 0,
            checksum: ddp_checksum(buf),
            dest_net: dest.addr.net,
            src_net: 0,
            dest_node: dest.addr.node,
            src_node: AppletalkNode::Unknown,
            dest_socket: dest.socket,
            src_socket: self.socket,
            typ: dest.typ,
        };
        (header, vstd::slice::slice_to_vec(buf))
    }

    /// Takes delivery of one datagram: copies as much of `buf_in` as fits in
    /// `buf_out` (silently truncating) and returns the count copied and the
    /// sender's addressing.
    pub fn recvfrom(&self, ddp: &Ddp, buf_in: &[u8], buf_out: &mut [u8]) -> (r: (usize, DdpHeader))
        ensures
            r.0 == if buf_in@.len() < old(buf_out)@.len() { buf_in@.len() } else { old(buf_out)@.len() },
            final(buf_out)@ == buf_in@.subrange(0, r.0 as int) + old(buf_out)@.subrange(
                r.0 as int,
                old(buf_out)@.len() as int,
            ),
            r.1.addr == ddp.spec_source(),
            r.1.socket == ddp.src_socket,
            r.1.typ == ddp.typ,
    {
        let len = if buf_in.len() < buf_out.len() {
            buf_in.len()
        } else {
            buf_out.len()
        };
        let mut i: usize = 0;
        while i < len
            invariant
                len <= buf_in@.len(),
                len <= old(buf_out)@.len(),
                buf_out@.len() == old(buf_out)@.len(),
                i <= len,
                forall|j: int| 0 <= j < i ==> buf_out@[j] == buf_in@[j],
                forall|j: int| len <= j < buf_out@.len() ==> buf_out@[j] == old(buf_out)@[j],
            decreases len - i,
        {
            buf_out[i] = buf_in[i];
            i = i + 1;
        }
        assert(buf_out@ =~= buf_in@.subrange(0, len as int) + old(buf_out)@.subrange(
            len as int,
            old(buf_out)@.len() as int,
        ));
        (len, DdpHeader { addr: ddp.source(), socket: ddp.src_socket, typ: ddp.typ })
    }
}

} // verus!
