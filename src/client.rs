//! The messages exchanged with native clients over their datagram endpoint:
//! a 16-byte `sockaddr_at` in the host's (little-endian) byte order, then
//! the payload.
use vstd::prelude::*;

use crate::addr::{Appletalk, AppletalkNode, AppletalkSocket, DdpType};
use crate::ddp::{Ddp, DdpHeader, DdpSocket};

verus! {

/// The size of a `sockaddr_at`.
pub const SOCKADDR_AT_SIZE: usize = 16;

/// The AppleTalk address family.
pub const AF_APPLETALK: u16 = 5;

/// The two bytes of `v`, least significant first.
pub open spec fn le16(v: u16) -> Seq<u8> {
    seq![(v % 256) as u8, (v / 256) as u8]
}

pub open spec fn from_le16(lo: u8, hi: u8) -> u16 {
    (hi as int * 256 + lo as int) as u16
}

/// An AppleTalk socket address as native clients lay it out: family, port,
/// network, node and DDP type, each a 16-bit field, then six zero bytes.
#[derive(Debug, Clone, Copy, PartialEq, Eq, Structural)]
pub struct SockaddrAt {
    pub family: u16,
    pub port: u16,
    pub net: u16,
    pub node: u16,
    pub typ: u16,
}

impl SockaddrAt {
    pub open spec fn spec_pack(self) -> Seq<u8> {
        le16(self.family) + le16(self.port) + le16(self.net) + le16(self.node) + le16(self.typ)
            + seq![0u8, 0u8, 0u8, 0u8, 0u8, 0u8]
    }

    pub open spec fn decoded_from(self, b: Seq<u8>) -> bool {
        &&& b.len() >= 16
        &&& self.family == from_le16(b[0], b[1])
        &&& self.port == from_le16(b[2], b[3])
        &&& self.net == from_le16(b[4], b[5])
        &&& self.node == from_le16(b[6], b[7])
        &&& self.typ == from_le16(b[8], b[9])
    }

    /// Encodes the address.
    pub fn pack(&self) -> (r: Vec<u8>)
        ensures
            r@ == self.spec_pack(),
    {
        let mut out: Vec<u8> = Vec::new();
        push_le16(&mut out, self.family);
        push_le16(&mut out, self.port);
        push_le16(&mut out, self.net);
        push_le16(&mut out, self.node);
        push_le16(&mut out, self.typ);
        let mut i: usize = 0;
        while i < 6
            invariant
                0 <= i <= 6,
                out@.len() == 10 + i,
                out@.subrange(0, 10) == le16(self.family) + le16(self.port) + le16(self.net)
                    + le16(self.node) + le16(self.typ),
                forall|j: int| 10 <= j < out@.len() ==> out@[j] == 0,
            decreases 6 - i,
        {
            out.push(0);
            i = i + 1;
            assert(out@.subrange(0, 10) =~= out@.drop_last().subrange(0, 10));
        }
        assert(out@ =~= self.spec_pack());
        out
    }

    /// Decodes the address at the front of `data`, if it is long enough.
    pub fn unpack(data: &[u8]) -> (r: Option<SockaddrAt>)
        ensures
            r is Some <==> data@.len() >= 16,
            r matches Some(a) ==> a.decoded_from(data@),
    {
        if data.len() < SOCKADDR_AT_SIZE {
            return None;
        }
        Some(
            SockaddrAt {
                family: get_le16(data, 0),
                port: get_le16(data, 2),
                net: get_le16(data, 4),
                node: get_le16(data, 6),
                typ: get_le16(data, 8),
            },
        )
    }
}

fn get_le16(data: &[u8], i: usize) -> (r: u16)
    requires
        i + 1 < data@.len(),
    ensures
        r == from_le16(data@[i as int], data@[i + 1]),
{
    assert(i + 1 < data.len());
    let hi = data[i + 1] as u16;
    let lo = data[i] as u16;
    hi * 256 + lo
}

fn push_le16(out: &mut Vec<u8>, v: u16)
    ensures
        final(out)@ == old(out)@ + le16(v),
{
    out.push((v % 256) as u8);
    out.push((v / 256) as u8);
    assert(final(out)@ =~= old(out)@ + le16(v));
}

/// The address a client is told it is bound to: network, node and port of
/// its endpoint, every other field zero.
pub fn bind_reply(sock: &DdpSocket) -> (r: SockaddrAt)
    ensures
        r == (SockaddrAt {
            family: 0,
            port: sock.socket.spec_to_u8() as u16,
            net: sock.addr.net,
            node: sock.addr.node.spec_to_u8() as u16,
            typ: 0,
        }),
{
    SockaddrAt {
        family: 0,
        port: sock.socket.to_primitive() as u16,
        net: sock.addr.net,
        node: sock.addr.node.to_primitive() as u16,
        typ: 0,
    }
}

/// The socket that a client's bind request names: none, meaning any free
/// dynamic socket, when its port is 0 or is not an assignable socket number.
pub fn requested_socket(req: &SockaddrAt) -> (r: Option<AppletalkSocket>)
    ensures
        r is None <==> (req.port == 0 || req.port >= 254),
        r matches Some(s) ==> s == AppletalkSocket::spec_from_u8(req.port as u8) && s.wf(),
{
    if req.port == 0 || req.port >= 254 {
        None
    } else {
        AppletalkSocket::from_primitive(req.port as u8)
    }
}

/// The message a client sends for `data` to `addr`: the first byte of
/// `data` is the DDP type, which moves into the address. Empty data is
/// refused.
pub fn client_outgoing(addr: &SockaddrAt, data: &[u8]) -> (r: Option<Vec<u8>>)
    ensures
        r is None <==> data@.len() == 0,
        r matches Some(m) ==> m@ == (SockaddrAt { typ: data@[0] as u16, ..*addr }).spec_pack()
            + data@.subrange(1, data@.len() as int),
{
    if data.len() == 0 {
        return None;
    }
    let a = SockaddrAt { typ: data[0] as u16, ..*addr };
    let mut out = a.pack();
    crate::wire::push_bytes(&mut out, vstd::slice::slice_subrange(data, 1, data.len()));
    Some(out)
}

/// The datagram that a client's message asks to send: the destination
/// address, socket and type come from the leading `sockaddr_at` (each taken
/// modulo 256 where the wire field is a byte), the payload is the rest.
pub fn datagram_from_client(msg: &[u8]) -> (r: Option<(DdpHeader, Vec<u8>)>)
    ensures
        r is None <==> msg@.len() < 16,
        r matches Some((h, p)) ==> {
            &&& h.addr.net == from_le16(msg@[4], msg@[5])
            &&& h.addr.node == AppletalkNode::spec_from_u8(msg@[6])
            &&& h.socket == AppletalkSocket::spec_from_u8(msg@[2])
            &&& h.typ.typ == msg@[8]
            &&& p@ == msg@.subrange(16, msg@.len() as int)
        },
{
    let a = match SockaddrAt::unpack(msg) {
        Some(a) => a,
        None => {
            return None;
        },
    };
    let node = AppletalkNode::from_primitive((a.node % 256) as u8).unwrap();
    let socket = AppletalkSocket::from_primitive((a.port % 256) as u8).unwrap();
    let header = DdpHeader {
        addr: Appletalk { net: a.net, node },
        socket,
        typ: DdpType { typ: (a.typ % 256) as u8 },
    };
    let payload = vstd::slice::slice_to_vec(vstd::slice::slice_subrange(msg, SOCKADDR_AT_SIZE, msg.len()));
    Some((header, payload))
}

/// The message that hands a received datagram to a client: the sender's
/// address, socket and the type, then the payload.
pub fn message_to_client(ddp: &Ddp, payload: &[u8]) -> (r: Vec<u8>)
    ensures
        r@ == (SockaddrAt {
            family: AF_APPLETALK,
            port: ddp.src_socket.spec_to_u8() as u16,
            net: ddp.src_net,
            node: ddp.src_node.spec_to_u8() as u16,
            typ: ddp.typ.typ as u16,
        }).spec_pack() + payload@,
{
    let a = SockaddrAt {
        family: AF_APPLETALK,
        port: ddp.src_socket.to_primitive() as u16,
        net: ddp.src_net,
        node: ddp.src_node.to_primitive() as u16,
        typ: ddp.typ.typ as u16,
    };
    let mut out = a.pack();
    crate::wire::push_bytes(&mut out, payload);
    out
}

/// What a client makes of a message from the stack: the sender's address,
/// and the data with the DDP type put back in front.
pub fn client_incoming(msg: &[u8]) -> (r: Option<(SockaddrAt, Vec<u8>)>)
    ensures
        r is None <==> msg@.len() < 16,
        r matches Some((a, d)) ==> a.decoded_from(msg@) && d@ == seq![(a.typ % 256) as u8]
            + msg@.subrange(16, msg@.len() as int),
{
    let a = match SockaddrAt::unpack(msg) {
        Some(a) => a,
        None => {
            return None;
        },
    };
    let mut out: Vec<u8> = Vec::new();
    out.push((a.typ % 256) as u8);
    crate::wire::push_bytes(&mut out, vstd::slice::slice_subrange(msg, SOCKADDR_AT_SIZE, msg.len()));
    Some((a, out))
}

/// What a client sends arrives as a datagram of the type it put first, with
/// the rest as payload.
pub proof fn lemma_outgoing_type_stripped(addr: SockaddrAt, data: Seq<u8>, m: Seq<u8>)
    requires
        data.len() > 0,
        m == (SockaddrAt { typ: data[0] as u16, ..addr }).spec_pack() + data.subrange(
            1,
            data.len() as int,
        ),
    ensures
        m.len() >= 16,
        m[8] == data[0],
        m.subrange(16, m.len() as int) == data.subrange(1, data.len() as int),
{
    assert(m.subrange(16, m.len() as int) =~= data.subrange(1, data.len() as int));
}

/// What the stack hands a client comes out with the type back in front of
/// the payload.
pub proof fn lemma_incoming_type_restored(a: SockaddrAt, payload: Seq<u8>, m: Seq<u8>)
    requires
        a.typ < 256,
        m == a.spec_pack() + payload,
    ensures
        m.len() >= 16,
        from_le16(m[8], m[9]) == a.typ,
        seq![(from_le16(m[8], m[9]) % 256) as u8] + m.subrange(16, m.len() as int) == seq![
            a.typ as u8,
        ] + payload,
{
    assert(m.subrange(16, m.len() as int) =~= payload);
}

} // verus!
