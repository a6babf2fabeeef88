//! Link and network addresses, socket numbers and the well-known constants.
use rand::rngs::OsRng;
use rand::Rng;
use vstd::prelude::*;

use crate::wire::{be16, from_be16};

verus! {

broadcast use vstd::array::group_array_axioms;

/// The AppleTalk ethertype (DDP).
pub const ETHERTYPE_APPLETALK: u16 = 0x809B;

/// The AARP ethertype.
pub const ETHERTYPE_AARP: u16 = 0x80F3;

/// The SNAP service access point, without its I/G or C/R bit.
pub const SNAP_PROTOCOL: u8 = 0x55;

/// First and last network numbers of the startup range.
pub const STARTUP_NET_FIRST: u16 = 0xFF00;
pub const STARTUP_NET_LAST: u16 = 0xFFFE;

/// First and last node numbers for user workstations.
pub const USER_NODE_FIRST: u8 = 0x01;
pub const USER_NODE_LAST: u8 = 0x7F;

/// First and last node numbers for servers.
pub const SERVER_NODE_FIRST: u8 = 0x80;
pub const SERVER_NODE_LAST: u8 = 0xFE;

/// First and last node numbers a host may take.
pub const ANY_NODE_FIRST: u8 = 0x01;
pub const ANY_NODE_LAST: u8 = 0xFE;

/// First and last dynamically assignable socket numbers.
pub const DAS_FIRST: u8 = 0x80;
pub const DAS_LAST: u8 = 0xFD;

pub open spec fn apple_oui_spec() -> Seq<u8> {
    seq![0x08u8, 0x00u8, 0x07u8]
}

pub open spec fn appletalk_oui_spec() -> Seq<u8> {
    seq![0x09u8, 0x00u8, 0x07u8]
}

pub open spec fn laa_oui_spec() -> Seq<u8> {
    seq![0x52u8, 0x54u8, 0x00u8]
}

pub open spec fn zero_oui_spec() -> Seq<u8> {
    seq![0u8, 0u8, 0u8]
}

/// The OUI that DDP frames carry in their SNAP header.
pub fn apple_oui() -> (r: [u8; 3])
    ensures
        r@ == apple_oui_spec(),
{
    [0x08, 0x00, 0x07]
}

/// The OUI that AARP frames carry in their SNAP header.
pub fn zero_oui() -> (r: [u8; 3])
    ensures
        r@ == zero_oui_spec(),
{
    [0, 0, 0]
}

/// A 48-bit Ethernet address: organisation ‖ interface.
#[derive(Debug, Copy, Clone)]
pub struct Mac {
    pub oui: [u8; 3],
    pub nic: [u8; 3],
}

impl PartialEq for Mac {
    fn eq(&self, o: &Mac) -> (r: bool) {
        let r = self.oui[0] == o.oui[0] && self.oui[1] == o.oui[1] && self.oui[2] == o.oui[2]
            && self.nic[0] == o.nic[0] && self.nic[1] == o.nic[1] && self.nic[2] == o.nic[2];
        proof {
            if r {
                assert(self.oui =~= o.oui);
                assert(self.nic =~= o.nic);
            }
        }
        r
    }
}

impl vstd::std_specs::cmp::PartialEqSpecImpl for Mac {
    open spec fn obeys_eq_spec() -> bool {
        true
    }

    open spec fn eq_spec(&self, o: &Mac) -> bool {
        *self == *o
    }
}

impl Eq for Mac {
}

/// The all-zero address.
pub fn zero_mac() -> (r: Mac)
    ensures
        r.spec_bytes() == seq![0u8, 0u8, 0u8, 0u8, 0u8, 0u8],
{
    let r = Mac { oui: [0, 0, 0], nic: [0, 0, 0] };
    assert(r.spec_bytes() =~= seq![0u8, 0u8, 0u8, 0u8, 0u8, 0u8]);
    r
}

pub open spec fn appletalk_broadcast_mac_spec() -> Mac {
    Mac { oui: [0x09u8, 0x00u8, 0x07u8], nic: [0xFFu8, 0xFFu8, 0xFFu8] }
}

/// The AppleTalk multicast address that reaches every AppleTalk host.
pub fn appletalk_broadcast_mac() -> (r: Mac)
    ensures
        r == appletalk_broadcast_mac_spec(),
        r.oui@ == appletalk_oui_spec(),
        r.nic@ == seq![0xFFu8, 0xFFu8, 0xFFu8],
{
    Mac { oui: [0x09, 0x00, 0x07], nic: [0xFF, 0xFF, 0xFF] }
}

pub proof fn lemma_mac_bytes_injective(a: Mac, b: Mac)
    requires
        a.spec_bytes() == b.spec_bytes(),
    ensures
        a == b,
{
    assert(a.oui@ =~= a.spec_bytes().subrange(0, 3));
    assert(b.oui@ =~= b.spec_bytes().subrange(0, 3));
    assert(a.nic@ =~= a.spec_bytes().subrange(3, 6));
    assert(b.nic@ =~= b.spec_bytes().subrange(3, 6));
    assert(a.oui =~= b.oui);
    assert(a.nic =~= b.nic);
}

impl Mac {
    /// The six bytes of the address, as on the wire.
    pub open spec fn spec_bytes(self) -> Seq<u8> {
        self.oui@ + self.nic@
    }

    /// A random locally administered address under the 52:54:00 organisation.
    pub fn new_random() -> (r: Mac)
        ensures
            r.oui@ == laa_oui_spec(),
    {
        let nic = random_nic();
        Mac { oui: [0x52, 0x54, 0x00], nic }
    }

    /// The address held by the six bytes at `data[at..at + 6]`.
    pub fn from_bytes(data: &[u8], at: usize) -> (r: Mac)
        requires
            at + 6 <= data@.len(),
        ensures
            r.spec_bytes() == data@.subrange(at as int, at + 6),
    {
        let r = Mac {
            oui: [data[at], data[at + 1], data[at + 2]],
            nic: [data[at + 3], data[at + 4], data[at + 5]],
        };
        assert(r.spec_bytes() =~= data@.subrange(at as int, at + 6));
        r
    }

    /// Appends the six bytes of the address.
    pub fn push_to(&self, out: &mut Vec<u8>)
        ensures
            final(out)@ == old(out)@ + self.spec_bytes(),
    {
        out.push(self.oui[0]);
        out.push(self.oui[1]);
        out.push(self.oui[2]);
        out.push(self.nic[0]);
        out.push(self.nic[1]);
        out.push(self.nic[2]);
        assert(final(out)@ =~= old(out)@ + self.spec_bytes());
    }
}

/// Relies on rand's `Rng::fill` over `OsRng`: three bytes from the operating
/// system's generator, any values.
#[verifier::external_body]
fn random_nic() -> (r: [u8; 3]) {
    let mut nic = [0u8; 3];
    OsRng.fill(&mut nic[..]);
    nic
}

/// Relies on rand's `Rng::gen_range` over `OsRng`: a value of the inclusive
/// range `lo..=hi`, which must not be empty (the call panics on an empty range).
#[verifier::external_body]
fn random_in(lo: u16, hi: u16) -> (r: u16)
    requires
        lo <= hi,
    ensures
        lo <= r <= hi,
{
    OsRng.gen_range(lo..=hi)
}

/// The node numbers with a name of their own.
#[derive(Debug, Copy, Clone, PartialEq, Eq, Structural)]
pub enum AppletalkNodePrim {
    Unknown,
    Broadcast,
}

impl AppletalkNodePrim {
    pub open spec fn spec_to_u8(self) -> u8 {
        match self {
            AppletalkNodePrim::Unknown => 0,
            AppletalkNodePrim::Broadcast => 255,
        }
    }

    /// The wire value of the named node number.
    pub fn to_primitive(&self) -> (r: u8)
        ensures
            r == self.spec_to_u8(),
    {
        match self {
            AppletalkNodePrim::Unknown => 0,
            AppletalkNodePrim::Broadcast => 255,
        }
    }

    /// The named node number that `v` stands for, if it has a name.
    pub fn from_primitive(v: u8) -> (r: Option<AppletalkNodePrim>)
        ensures
            r matches Some(p) ==> p.spec_to_u8() == v,
            r is None <==> (v != 0 && v != 255),
    {
        if v == 0 {
            Some(AppletalkNodePrim::Unknown)
        } else if v == 255 {
            Some(AppletalkNodePrim::Broadcast)
        } else {
            None
        }
    }
}

/// A node number: 0 is unknown, 255 is broadcast, the rest name one node.
#[derive(Debug, Copy, Clone, PartialEq, Eq, Structural)]
pub enum AppletalkNode {
    Unknown,
    Broadcast,
    Node(u8),
}

impl AppletalkNode {
    /// `Node` holds only the numbers without a name of their own.
    pub open spec fn wf(self) -> bool {
        self matches AppletalkNode::Node(n) ==> 1 <= n <= 254
    }

    pub open spec fn spec_to_u8(self) -> u8 {
        match self {
            AppletalkNode::Unknown => 0,
            AppletalkNode::Broadcast => 255,
            AppletalkNode::Node(n) => n,
        }
    }

    pub open spec fn spec_from_u8(v: u8) -> AppletalkNode {
        if v == 0 {
            AppletalkNode::Unknown
        } else if v == 255 {
            AppletalkNode::Broadcast
        } else {
            AppletalkNode::Node(v)
        }
    }

    /// The node that the wire value `v` stands for; every value stands for one.
    pub fn from_primitive(v: u8) -> (r: Option<AppletalkNode>)
        ensures
            r == Some(Self::spec_from_u8(v)),
    {
        if v == 0 {
            Some(AppletalkNode::Unknown)
        } else if v == 255 {
            Some(AppletalkNode::Broadcast)
        } else {
            Some(AppletalkNode::Node(v))
        }
    }

    /// The wire value of the node.
    pub fn to_primitive(&self) -> (r: u8)
        ensures
            r == self.spec_to_u8(),
    {
        match self {
            AppletalkNode::Unknown => 0,
            AppletalkNode::Broadcast => 255,
            AppletalkNode::Node(n) => *n,
        }
    }
}

pub proof fn lemma_node_round_trip(n: AppletalkNode)
    requires
        n.wf(),
    ensures
        AppletalkNode::spec_from_u8(n.spec_to_u8()) == n,
{
}

pub proof fn lemma_node_bytes_round_trip(v: u8)
    ensures
        AppletalkNode::spec_from_u8(v).spec_to_u8() == v,
        AppletalkNode::spec_from_u8(v).wf(),
{
}

/// An AppleTalk address: network ‖ node.
#[derive(Debug, Copy, Clone, PartialEq, Eq, Structural)]
pub struct Appletalk {
    pub net: u16,
    pub node: AppletalkNode,
}

/// The address that reaches every node of the local network.
pub open spec fn appletalk_broadcast_spec() -> Appletalk {
    Appletalk { net: 0, node: AppletalkNode::Broadcast }
}

pub fn appletalk_broadcast() -> (r: Appletalk)
    ensures
        r == appletalk_broadcast_spec(),
{
    Appletalk { net: 0, node: AppletalkNode::Broadcast }
}

impl Appletalk {
    pub open spec fn wf(self) -> bool {
        self.node.wf()
    }

    /// The three bytes of the address, as on the wire.
    pub open spec fn spec_bytes(self) -> Seq<u8> {
        be16(self.net) + seq![self.node.spec_to_u8()]
    }

    /// Whether this address lies in the startup range that a host picks from.
    pub open spec fn is_startup_candidate(self) -> bool {
        &&& STARTUP_NET_FIRST <= self.net <= STARTUP_NET_LAST
        &&& self.node matches AppletalkNode::Node(n)
        &&& ANY_NODE_FIRST <= n <= ANY_NODE_LAST
    }

    /// A random address of the startup range.
    pub fn new_random() -> (r: Appletalk)
        ensures
            r.is_startup_candidate(),
            r.wf(),
    {
        let net = random_in(STARTUP_NET_FIRST, STARTUP_NET_LAST);
        let node = random_in(ANY_NODE_FIRST as u16, ANY_NODE_LAST as u16) as u8;
        Appletalk { net, node: AppletalkNode::Node(node) }
    }

    /// The address held by the three bytes at `data[at..at + 3]`.
    pub fn from_bytes(data: &[u8], at: usize) -> (r: Appletalk)
        requires
            at + 3 <= data@.len(),
        ensures
            r.net == from_be16(data@[at as int], data@[at + 1]),
            r.node == AppletalkNode::spec_from_u8(data@[at + 2]),
            r.wf(),
    {
        assert(at + 2 < data.len());
        let net = crate::wire::get_u16(data, at);
        let b = data[at + 2];
        let node = if b == 0 {
            AppletalkNode::Unknown
        } else if b == 255 {
            AppletalkNode::Broadcast
        } else {
            AppletalkNode::Node(b)
        };
        Appletalk { net, node }
    }

    /// Appends the three bytes of the address.
    pub fn push_to(&self, out: &mut Vec<u8>)
        ensures
            final(out)@ == old(out)@ + self.spec_bytes(),
    {
        crate::wire::push_u16(out, self.net);
        out.push(self.node.to_primitive());
        assert(final(out)@ =~= old(out)@ + self.spec_bytes());
    }
}

/// Socket numbers with a name of their own.
#[derive(Debug, Copy, Clone, PartialEq, Eq, Structural)]
pub enum AppletalkSocketPrim {
    Reserved0,
    SasNbp,
    SasAep,
    Reserved255,
}

impl AppletalkSocketPrim {
    pub open spec fn spec_to_u8(self) -> u8 {
        match self {
            AppletalkSocketPrim::Reserved0 => 0,
            AppletalkSocketPrim::SasNbp => 2,
            AppletalkSocketPrim::SasAep => 4,
            AppletalkSocketPrim::Reserved255 => 255,
        }
    }

    /// The wire value of the named socket number.
    pub fn to_primitive(&self) -> (r: u8)
        ensures
            r == self.spec_to_u8(),
    {
        match self {
            AppletalkSocketPrim::Reserved0 => 0,
            AppletalkSocketPrim::SasNbp => 2,
            AppletalkSocketPrim::SasAep => 4,
            AppletalkSocketPrim::Reserved255 => 255,
        }
    }

    /// The named socket number that `v` stands for, if it has a name.
    pub fn from_primitive(v: u8) -> (r: Option<AppletalkSocketPrim>)
        ensures
            r matches Some(p) ==> p.spec_to_u8() == v,
            r is None <==> (v != 0 && v != 2 && v != 4 && v != 255),
    {
        if v == 0 {
            Some(AppletalkSocketPrim::Reserved0)
        } else if v == 2 {
            Some(AppletalkSocketPrim::SasNbp)
        } else if v == 4 {
            Some(AppletalkSocketPrim::SasAep)
        } else if v == 255 {
            Some(AppletalkSocketPrim::Reserved255)
        } else {
            None
        }
    }
}

/// The statically assigned sockets of the protocols with a fixed socket.
#[derive(Debug, Copy, Clone, PartialEq, Eq, Structural)]
pub enum Sas {
    Nbp,
    Aep,
}

/// A DDP socket number, by the region it belongs to: 0, 254 and 255 are
/// reserved, 1 to 127 static (2 and 4 assigned to NBP and AEP), 128 to 253
/// dynamically assignable.
#[derive(Debug, Copy, Clone, PartialEq, Eq, Structural)]
pub enum AppletalkSocket {
    StaticSas(Sas),
    Static(u8),
    Dynamic(u8),
    Reserved0,
    Reserved254,
    Reserved255,
}

impl AppletalkSocket {
    /// `Static` and `Dynamic` hold only numbers of their own region.
    pub open spec fn wf(self) -> bool {
        match self {
            AppletalkSocket::Static(n) => 1 <= n <= 127 && n != 2 && n != 4,
            AppletalkSocket::Dynamic(n) => 128 <= n <= 253,
            _ => true,
        }
    }

    pub open spec fn spec_to_u8(self) -> u8 {
        match self {
            AppletalkSocket::StaticSas(Sas::Nbp) => 2,
            AppletalkSocket::StaticSas(Sas::Aep) => 4,
            AppletalkSocket::Static(n) => n,
            AppletalkSocket::Dynamic(n) => n,
            AppletalkSocket::Reserved0 => 0,
            AppletalkSocket::Reserved254 => 254,
            AppletalkSocket::Reserved255 => 255,
        }
    }

    pub open spec fn spec_from_u8(v: u8) -> AppletalkSocket {
        if v == 0 {
            AppletalkSocket::Reserved0
        } else if v == 255 {
            AppletalkSocket::Reserved255
        } else if v == 254 {
            AppletalkSocket::Reserved254
        } else if v == 2 {
            AppletalkSocket::StaticSas(Sas::Nbp)
        } else if v == 4 {
            AppletalkSocket::StaticSas(Sas::Aep)
        } else if v >= 128 {
            AppletalkSocket::Dynamic(v)
        } else {
            AppletalkSocket::Static(v)
        }
    }

    /// A random socket number of the dynamically assignable range.
    pub fn new_random_dynamic() -> (r: AppletalkSocket)
        ensures
            r matches AppletalkSocket::Dynamic(n) && DAS_FIRST <= n <= DAS_LAST,
    {
        let n = random_in(DAS_FIRST as u16, DAS_LAST as u16) as u8;
        AppletalkSocket::Dynamic(n)
    }

    /// The socket that the wire value `v` stands for; every value stands for one.
    pub fn from_primitive(v: u8) -> (r: Option<AppletalkSocket>)
        ensures
            r == Some(Self::spec_from_u8(v)),
    {
        if v == 0 {
            Some(AppletalkSocket::Reserved0)
        } else if v == 255 {
            Some(AppletalkSocket::Reserved255)
        } else if v == 254 {
            Some(AppletalkSocket::Reserved254)
        } else if v == 2 {
            Some(AppletalkSocket::StaticSas(Sas::Nbp))
        } else if v == 4 {
            Some(AppletalkSocket::StaticSas(Sas::Aep))
        } else if v >= 128 {
            Some(AppletalkSocket::Dynamic(v))
        } else {
            Some(AppletalkSocket::Static(v))
        }
    }

    /// The wire value of the socket.
    pub fn to_primitive(&self) -> (r: u8)
        ensures
            r == self.spec_to_u8(),
    {
        match self {
            AppletalkSocket::StaticSas(Sas::Nbp) => 2,
            AppletalkSocket::StaticSas(Sas::Aep) => 4,
            AppletalkSocket::Static(n) => *n,
            AppletalkSocket::Dynamic(n) => *n,
            AppletalkSocket::Reserved0 => 0,
            AppletalkSocket::Reserved254 => 254,
            AppletalkSocket::Reserved255 => 255,
        }
    }
}

pub proof fn lemma_socket_round_trip(s: AppletalkSocket)
    requires
        s.wf(),
    ensures
        AppletalkSocket::spec_from_u8(s.spec_to_u8()) == s,
{
}

pub proof fn lemma_socket_bytes_round_trip(v: u8)
    ensures
        AppletalkSocket::spec_from_u8(v).spec_to_u8() == v,
        AppletalkSocket::spec_from_u8(v).wf(),
{
}

/// The DDP type byte, carried end to end unchanged.
#[derive(Debug, Copy, Clone, PartialEq, Eq, Structural)]
pub struct DdpType {
    pub typ: u8,
}

/// An 802.2 service access point, seven bits wide.
#[derive(Debug, Copy, Clone, PartialEq, Eq, Structural)]
pub struct Sap {
    pub protocol: u8,
}

impl Sap {
    /// The SNAP service access point.
    pub fn snap() -> (r: Sap)
        ensures
            r.protocol == SNAP_PROTOCOL,
    {
        Sap { protocol: SNAP_PROTOCOL }
    }
}

/// An Ethernet protocol type.
#[derive(Debug, Copy, Clone, PartialEq, Eq, Structural)]
pub struct Ethertype {
    pub protocol: u16,
}

} // verus!
