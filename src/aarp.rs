//! AARP: the packet, the frames the stack emits, and the stack's state machine.
use vstd::prelude::*;

use crate::addr::{
    Appletalk, AppletalkNode, AppletalkSocket, Ethertype, Mac, appletalk_broadcast,
    appletalk_broadcast_mac_spec, DAS_FIRST, DAS_LAST,
    appletalk_broadcast_mac, appletalk_broadcast_spec, appletalk_oui_spec, apple_oui,
    apple_oui_spec, lemma_mac_bytes_injective, zero_mac, zero_oui, zero_oui_spec,
    ETHERTYPE_AARP, ETHERTYPE_APPLETALK, SNAP_PROTOCOL,
};
use crate::amt::{glean_atalk, glean_hw, Amt, AmtEntryCell};
use crate::ddp::{Ddp, DDP_SIZE};
use crate::link::{snap_header, snap_header_spec, AppletalkPacket, Elap, ELAP_MAX_LENGTH};
use crate::wire::{be16, from_be16, lemma_be16_bytes_round_trip, lemma_be16_round_trip};
use crate::{CrabbletalkError, UnpackSplit};

verus! {

/// The size of an AARP packet.
pub const AARP_SIZE: usize = 28;

/// The hardware types an AARP packet may name.
#[derive(Debug, Copy, Clone, PartialEq, Eq, Structural)]
pub enum AarpHardware {
    Ethernet,
    TokenRing,
}

impl AarpHardware {
    pub open spec fn spec_to_u16(self) -> u16 {
        match self {
            AarpHardware::Ethernet => 1,
            AarpHardware::TokenRing => 2,
        }
    }
}

/// What an AARP packet asks or tells.
#[derive(Debug, Copy, Clone, PartialEq, Eq, Structural)]
pub enum AarpFunction {
    Request,
    Response,
    Probe,
}

impl AarpFunction {
    pub open spec fn spec_to_u16(self) -> u16 {
        match self {
            AarpFunction::Request => 1,
            AarpFunction::Response => 2,
            AarpFunction::Probe => 3,
        }
    }
}

/// The functions of the AppleTalk echo protocol.
#[derive(Debug, Copy, Clone, PartialEq, Eq, Structural)]
pub enum AepFunction {
    Request,
    Reply,
}

impl AepFunction {
    pub open spec fn spec_to_u8(self) -> u8 {
        match self {
            AepFunction::Request => 1,
            AepFunction::Reply => 2,
        }
    }

    /// The function that the wire value `v` names, if any.
    pub fn from_primitive(v: u8) -> (r: Option<AepFunction>)
        ensures
            r matches Some(f) ==> f.spec_to_u8() == v,
            r is None <==> (v != 1 && v != 2),
    {
        if v == 1 {
            Some(AepFunction::Request)
        } else if v == 2 {
            Some(AepFunction::Reply)
        } else {
            None
        }
    }
}

/// An AARP packet.
#[derive(Debug, Clone, Copy)]
pub struct Aarp {
    pub hardware: AarpHardware,
    pub protocol: Ethertype,
    pub hw_address_len: u8,
    pub protocol_address_len: u8,
    pub function: AarpFunction,
    pub source_hw: Mac,
    pub source_appletalk: Appletalk,
    pub destination_hw: Mac,
    pub destination_appletalk: Appletalk,
}

/// The bytes of an AARP packet for Ethernet and AppleTalk, from its
/// function code and the bytes of its four addresses.
pub open spec fn aarp_body_bytes(
    function: u16,
    src_hw: Seq<u8>,
    src_at: Appletalk,
    dst_hw: Seq<u8>,
    dst_at: Appletalk,
) -> Seq<u8> {
    be16(1) + be16(ETHERTYPE_APPLETALK) + seq![6u8, 4u8] + be16(function) + src_hw + seq![0u8]
        + src_at.spec_bytes() + dst_hw + seq![0u8] + dst_at.spec_bytes()
}

impl Aarp {
    pub open spec fn wf(self) -> bool {
        self.source_appletalk.wf() && self.destination_appletalk.wf()
    }

    /// The packet's bytes on the wire; the two pad bytes are zero.
    pub open spec fn spec_pack(self) -> Seq<u8> {
        be16(self.hardware.spec_to_u16()) + be16(self.protocol.protocol) + seq![
            self.hw_address_len,
            self.protocol_address_len,
        ] + be16(self.function.spec_to_u16()) + self.source_hw.spec_bytes() + seq![0u8]
            + self.source_appletalk.spec_bytes() + self.destination_hw.spec_bytes() + seq![0u8]
            + self.destination_appletalk.spec_bytes()
    }

    /// Encodes the packet.
    pub fn pack(&self) -> (r: Vec<u8>)
        ensures
            r@ == self.spec_pack(),
    {
        let mut out: Vec<u8> = Vec::new();
        let hardware: u16 = match self.hardware {
            AarpHardware::Ethernet => 1,
            AarpHardware::TokenRing => 2,
        };
        let function: u16 = match self.function {
            AarpFunction::Request => 1,
            AarpFunction::Response => 2,
            AarpFunction::Probe => 3,
        };
        crate::wire::push_u16(&mut out, hardware);
        crate::wire::push_u16(&mut out, self.protocol.protocol);
        out.push(self.hw_address_len);
        out.push(self.protocol_address_len);
        crate::wire::push_u16(&mut out, function);
        self.source_hw.push_to(&mut out);
        out.push(0);
        self.source_appletalk.push_to(&mut out);
        self.destination_hw.push_to(&mut out);
        out.push(0);
        self.destination_appletalk.push_to(&mut out);
        assert(out@ =~= self.spec_pack());
        out
    }
}

impl UnpackSplit for Aarp {
    open spec fn packed_size() -> nat {
        28
    }

    /// The hardware type is 1 or 2 and the function 1, 2 or 3.
    open spec fn accepts(b: Seq<u8>) -> bool {
        &&& 1 <= from_be16(b[0], b[1]) <= 2
        &&& 1 <= from_be16(b[6], b[7]) <= 3
    }

    open spec fn decoded_from(self, b: Seq<u8>) -> bool {
        &&& b.len() >= 28
        &&& self.hardware.spec_to_u16() == from_be16(b[0], b[1])
        &&& self.protocol.protocol == from_be16(b[2], b[3])
        &&& self.hw_address_len == b[4]
        &&& self.protocol_address_len == b[5]
        &&& self.function.spec_to_u16() == from_be16(b[6], b[7])
        &&& self.source_hw.spec_bytes() == b.subrange(8, 14)
        &&& self.source_appletalk.net == from_be16(b[15], b[16])
        &&& self.source_appletalk.node == AppletalkNode::spec_from_u8(b[17])
        &&& self.destination_hw.spec_bytes() == b.subrange(18, 24)
        &&& self.destination_appletalk.net == from_be16(b[25], b[26])
        &&& self.destination_appletalk.node == AppletalkNode::spec_from_u8(b[27])
    }

    fn unpack_split<'d>(data: &'d [u8]) -> (r: Result<(Aarp, &'d [u8]), CrabbletalkError>) {
        if data.len() < AARP_SIZE {
            return Err(CrabbletalkError::MalformedFrame);
        }
        let hardware = match crate::wire::get_u16(data, 0) {
            1 => AarpHardware::Ethernet,
            2 => AarpHardware::TokenRing,
            _ => {
                return Err(CrabbletalkError::MalformedFrame);
            },
        };
        let function = match crate::wire::get_u16(data, 6) {
            1 => AarpFunction::Request,
            2 => AarpFunction::Response,
            3 => AarpFunction::Probe,
            _ => {
                return Err(CrabbletalkError::MalformedFrame);
            },
        };
        let a = Aarp {
            hardware,
            protocol: Ethertype { protocol: crate::wire::get_u16(data, 2) },
            hw_address_len: data[4],
            protocol_address_len: data[5],
            function,
            source_hw: Mac::from_bytes(data, 8),
            source_appletalk: Appletalk::from_bytes(data, 15),
            destination_hw: Mac::from_bytes(data, 18),
            destination_appletalk: Appletalk::from_bytes(data, 25),
        };
        let (_, rest) = data.split_at(AARP_SIZE);
        Ok((a, rest))
    }
}

/// Decoding the bytes of a valid packet gives that packet back.
pub proof fn lemma_aarp_round_trip(x: Aarp, y: Aarp)
    requires
        x.wf(),
        y.decoded_from(x.spec_pack()),
    ensures
        Aarp::accepts(x.spec_pack()),
        y == x,
{
    let b = x.spec_pack();
    assert(b.subrange(8, 14) =~= x.source_hw.spec_bytes());
    assert(b.subrange(18, 24) =~= x.destination_hw.spec_bytes());
    lemma_mac_bytes_injective(y.source_hw, x.source_hw);
    lemma_mac_bytes_injective(y.destination_hw, x.destination_hw);
    lemma_be16_round_trip(x.hardware.spec_to_u16());
    lemma_be16_round_trip(x.protocol.protocol);
    lemma_be16_round_trip(x.function.spec_to_u16());
    lemma_be16_round_trip(x.source_appletalk.net);
    lemma_be16_round_trip(x.destination_appletalk.net);
}

/// Encoding a decoded packet gives back the bytes it was decoded from, where
/// the two pad bytes are zero.
pub proof fn lemma_aarp_bytes_round_trip(b: Seq<u8>, y: Aarp)
    requires
        y.decoded_from(b),
        b[14] == 0,
        b[24] == 0,
    ensures
        y.wf(),
        y.spec_pack() == b.subrange(0, 28),
{
    lemma_be16_bytes_round_trip(b[0], b[1]);
    lemma_be16_bytes_round_trip(b[2], b[3]);
    lemma_be16_bytes_round_trip(b[6], b[7]);
    lemma_be16_bytes_round_trip(b[15], b[16]);
    lemma_be16_bytes_round_trip(b[25], b[26]);
    assert(y.spec_pack() =~= b.subrange(0, 28));
}

/// The six bytes of the all-zero Ethernet address.
pub open spec fn zero_mac_bytes() -> Seq<u8> {
    seq![0u8, 0u8, 0u8, 0u8, 0u8, 0u8]
}

/// The six bytes of the AppleTalk broadcast Ethernet address.
pub open spec fn broadcast_mac_bytes() -> Seq<u8> {
    appletalk_oui_spec() + seq![0xFFu8, 0xFFu8, 0xFFu8]
}

/// The ELAP length field of an AARP frame: the header after its first 14
/// bytes, and the packet.
pub const AARP_FRAME_LENGTH: u16 = 36;

/// A whole AARP frame to `dest` from `src` carrying `body`.
pub open spec fn aarp_frame_spec(dest: Seq<u8>, src: Seq<u8>, body: Seq<u8>) -> Seq<u8> {
    snap_header_spec(dest, src, AARP_FRAME_LENGTH, zero_oui_spec(), ETHERTYPE_AARP) + body
}

/// The probe that `me` broadcasts while trying out `addr`.
pub open spec fn probe_frame_spec(me: Mac, addr: Appletalk) -> Seq<u8> {
    aarp_frame_spec(
        broadcast_mac_bytes(),
        me.spec_bytes(),
        aarp_body_bytes(3, me.spec_bytes(), addr, zero_mac_bytes(), addr),
    )
}

/// The request that `me`, on `mine`, broadcasts to learn who has `target`.
pub open spec fn request_frame_spec(me: Mac, mine: Appletalk, target: Appletalk) -> Seq<u8> {
    aarp_frame_spec(
        broadcast_mac_bytes(),
        me.spec_bytes(),
        aarp_body_bytes(1, me.spec_bytes(), mine, zero_mac_bytes(), target),
    )
}

/// The response that `me`, on `mine`, sends to `to_hw` on `to_atalk`.
pub open spec fn response_frame_spec(me: Mac, mine: Appletalk, to_hw: Mac, to_atalk: Appletalk) -> Seq<u8> {
    aarp_frame_spec(
        to_hw.spec_bytes(),
        me.spec_bytes(),
        aarp_body_bytes(2, me.spec_bytes(), mine, to_hw.spec_bytes(), to_atalk),
    )
}

/// Wraps an AARP packet in its ELAP header and encodes both.
fn write_aarp(dest: Mac, src: Mac, body: &Aarp) -> (r: AppletalkPacket)
    ensures
        r.0@ == aarp_frame_spec(dest.spec_bytes(), src.spec_bytes(), body.spec_pack()),
{
    let elap = snap_header(dest, src, AARP_FRAME_LENGTH, zero_oui(), ETHERTYPE_AARP);
    let mut out = elap.pack();
    let b = body.pack();
    crate::wire::push_bytes(&mut out, b.as_slice());
    AppletalkPacket(out)
}

/// An AARP packet for Ethernet and AppleTalk.
fn aarp_body(function: AarpFunction, src_hw: Mac, src_at: Appletalk, dst_hw: Mac, dst_at: Appletalk) -> (r: Aarp)
    ensures
        r.spec_pack() == aarp_body_bytes(
            function.spec_to_u16(),
            src_hw.spec_bytes(),
            src_at,
            dst_hw.spec_bytes(),
            dst_at,
        ),
{
    let r = Aarp {
        hardware: AarpHardware::Ethernet,
        protocol: Ethertype { protocol: ETHERTYPE_APPLETALK },
        hw_address_len: 6,
        protocol_address_len: 4,
        function,
        source_hw: src_hw,
        source_appletalk: src_at,
        destination_hw: dst_hw,
        destination_appletalk: dst_at,
    };
    assert(r.spec_pack() =~= aarp_body_bytes(
        function.spec_to_u16(),
        src_hw.spec_bytes(),
        src_at,
        dst_hw.spec_bytes(),
        dst_at,
    ));
    r
}

/// Where the stack is in acquiring its AppleTalk address.
#[derive(Debug, Clone, Copy, PartialEq, Eq, Structural)]
pub enum AddressPhase {
    Uninitialized,
    /// Probing for `addr`; not yet ours.
    Tentative { addr: Appletalk },
    /// `addr` is ours.
    Accepted { addr: Appletalk },
}

/// What ends a probing window.
#[derive(Debug, Clone, Copy, PartialEq, Eq, Structural)]
pub enum AcquireEvent {
    /// Another host claimed the candidate address.
    Conflict,
    /// The probing window passed without a conflict.
    WindowElapsed,
}

impl AddressPhase {
    pub open spec fn acquire_step_spec(self, event: AcquireEvent, fresh: Appletalk) -> AddressPhase {
        match self {
            AddressPhase::Uninitialized => AddressPhase::Tentative { addr: fresh },
            AddressPhase::Tentative { addr } => match event {
                AcquireEvent::Conflict => AddressPhase::Tentative { addr: fresh },
                AcquireEvent::WindowElapsed => AddressPhase::Accepted { addr },
            },
            AddressPhase::Accepted { addr } => AddressPhase::Accepted { addr },
        }
    }

    /// The phase after `event`: a quiet window accepts the candidate, a
    /// conflict moves on to the fresh candidate `fresh`; an uninitialised
    /// phase starts probing `fresh`; an accepted address stays.
    pub fn acquire_step(&self, event: AcquireEvent, fresh: Appletalk) -> (r: AddressPhase)
        ensures
            r == self.acquire_step_spec(event, fresh),
    {
        match *self {
            AddressPhase::Uninitialized => AddressPhase::Tentative { addr: fresh },
            AddressPhase::Tentative { addr } => match event {
                AcquireEvent::Conflict => AddressPhase::Tentative { addr: fresh },
                AcquireEvent::WindowElapsed => AddressPhase::Accepted { addr },
            },
            AddressPhase::Accepted { addr } => AddressPhase::Accepted { addr },
        }
    }

    /// A fresh candidate address from the startup range, other than the
    /// address being tried out (a draw that repeats it moves to the next node).
    pub fn next_candidate(&self) -> (r: Appletalk)
        ensures
            r.is_startup_candidate(),
            r.wf(),
            self matches AddressPhase::Tentative { addr } ==> r != addr,
    {
        let a = Appletalk::new_random();
        match *self {
            AddressPhase::Tentative { addr } => {
                if a == addr {
                    let n = match a.node {
                        AppletalkNode::Node(n) => n,
                        _ => 1,
                    };
                    let next = if n < 254 { n + 1 } else { 1 };
                    Appletalk { net: a.net, node: AppletalkNode::Node(next) }
                } else {
                    a
                }
            },
            _ => a,
        }
    }

    /// The address to publish as ours: only an accepted one.
    pub fn published(&self) -> (r: Option<Appletalk>)
        ensures
            r == match *self {
                AddressPhase::Accepted { addr } => Some(addr),
                _ => None,
            },
    {
        match *self {
            AddressPhase::Accepted { addr } => Some(addr),
            _ => None,
        }
    }
}

/// Whether an incoming packet shows that another host holds the address we
/// are trying out.
pub open spec fn conflict_spec(phase: AddressPhase, a: Aarp) -> bool {
    match phase {
        AddressPhase::Tentative { addr } => {
            ||| a.function == AarpFunction::Probe && a.destination_appletalk == addr
            ||| a.function == AarpFunction::Response && a.source_appletalk == addr
        },
        _ => false,
    }
}

/// Whether an incoming packet asks for our accepted address.
pub open spec fn asks_for_us_spec(phase: AddressPhase, a: Aarp) -> bool {
    match phase {
        AddressPhase::Accepted { addr } => (a.function == AarpFunction::Request || a.function
            == AarpFunction::Probe) && a.destination_appletalk == addr,
        _ => false,
    }
}

/// Whether an incoming packet is one the table learns from.
pub open spec fn gleans_spec(a: Aarp) -> bool {
    a.function == AarpFunction::Request || a.function == AarpFunction::Response
}

/// A datagram for a local socket.
#[derive(Debug, Clone)]
pub struct DdpDelivery {
    pub socket: AppletalkSocket,
    pub ddp: Ddp,
    pub payload: Vec<u8>,
}

/// What the stack does about one incoming frame.
#[derive(Debug, Clone)]
pub enum Ingress {
    /// Nothing beyond what it learned.
    Ignored,
    /// Another host holds the address being tried out: the acquirer must move on.
    Conflict,
    /// Send this AARP response.
    Reply(AppletalkPacket),
    /// Hand this datagram to its socket.
    Deliver(DdpDelivery),
}

/// Relies on chrono's `Utc::now` and `DateTime::timestamp_millis`: the current
/// time in milliseconds since the Unix epoch; any value.
#[verifier::external_body]
fn now_millis() -> (r: i64) {
    chrono::Utc::now().timestamp_millis()
}

/// The effect of handling the decoded AARP packet `a` at time `now`, from
/// state `pre` to state `post`, with outcome `r`.
pub open spec fn aarp_handled(pre: AarpStack, post: AarpStack, a: Aarp, r: Ingress, now: i64) -> bool {
    &&& post.spec_mac() == pre.spec_mac()
    &&& post.spec_phase() == pre.spec_phase()
    &&& post.spec_sockets() == pre.spec_sockets()
    &&& conflict_spec(pre.spec_phase(), a) ==> r is Conflict
    &&& asks_for_us_spec(pre.spec_phase(), a) ==> (r matches Ingress::Reply(p) && p.0@
        == response_frame_spec(
        pre.spec_mac(),
        pre.spec_phase()->Accepted_addr,
        a.source_hw,
        a.source_appletalk,
    ))
    &&& !conflict_spec(pre.spec_phase(), a) && !asks_for_us_spec(pre.spec_phase(), a) ==> r is Ignored
    &&& gleans_spec(a) ==> post.spec_amt().atalk_view() == glean_atalk(
        pre.spec_amt().atalk_view(),
        pre.spec_amt().hw_view(),
        a.source_hw,
        a.source_appletalk,
    ) && post.spec_amt().hw_view() == glean_hw(
        pre.spec_amt().atalk_view(),
        pre.spec_amt().hw_view(),
        a.source_hw,
        a.source_appletalk,
    ) && post.spec_amt().cell_of(a.source_appletalk) == Some(
        AmtEntryCell { hw: a.source_hw, atalk: a.source_appletalk, set_at: now },
    )
    &&& !gleans_spec(a) ==> post.spec_amt() == pre.spec_amt()
}

/// The effect of an incoming AARP packet held in `data`: malformed bytes
/// change nothing; otherwise the decoded packet is handled, stamped with the
/// time it arrived.
pub open spec fn aarp_ingress(
    pre: AarpStack,
    post: AarpStack,
    data: Seq<u8>,
    r: Result<Ingress, CrabbletalkError>,
) -> bool {
    &&& r is Err <==> !(data.len() >= 28 && Aarp::accepts(data))
    &&& r is Err ==> r == Err::<Ingress, CrabbletalkError>(CrabbletalkError::MalformedFrame) && post
        == pre
    &&& r matches Ok(x) ==> exists|a: Aarp, now: i64|
        a.decoded_from(data) && aarp_handled(pre, post, a, x, now)
}

/// The DDP length field held in the first two bytes of `data`.
pub open spec fn ddp_length_spec(data: Seq<u8>) -> int {
    (data[0] % 4) * 256 + data[1]
}

/// Whether a datagram is for one of our open sockets: addressed to our
/// accepted address or to the broadcast address, with a checksum that
/// admits it (`covered` is what the protocol sums, `payload` the payload).
pub open spec fn delivers_spec(
    phase: AddressPhase,
    sockets: Seq<u8>,
    d: Ddp,
    covered: Seq<u8>,
    payload: Seq<u8>,
) -> bool {
    &&& phase is Accepted
    &&& d.spec_destination() == phase->Accepted_addr || d.spec_destination()
        == appletalk_broadcast_spec()
    &&& sockets.contains(d.dest_socket.spec_to_u8())
    &&& d.spec_checksum_accepts(covered, payload)
}

/// The outcome of an incoming DDP datagram held in `data`, for a stack in
/// state `st` (which it does not change).
pub open spec fn ddp_ingress(st: AarpStack, data: Seq<u8>, r: Result<Ingress, CrabbletalkError>) -> bool {
    &&& r is Ok <==> (data.len() >= 13 && 13 <= ddp_length_spec(data) <= data.len())
    &&& r matches Err(e) ==> e == CrabbletalkError::MalformedFrame
    &&& r matches Ok(x) ==> (x is Ignored || x is Deliver)
    &&& r matches Ok(Ingress::Deliver(dl)) ==> {
        &&& dl.ddp.decoded_from(data)
        &&& dl.payload@ == data.subrange(13, dl.ddp.length as int)
        &&& dl.socket == dl.ddp.dest_socket
        &&& delivers_spec(
            st.spec_phase(),
            st.spec_sockets(),
            dl.ddp,
            data.subrange(4, dl.ddp.length as int),
            dl.payload@,
        )
    }
    &&& r is Ok ==> forall|d: Ddp|
        #![trigger d.decoded_from(data)]
        d.decoded_from(data) && delivers_spec(
            st.spec_phase(),
            st.spec_sockets(),
            d,
            data.subrange(4, d.length as int),
            data.subrange(13, d.length as int),
        ) ==> r->Ok_0 is Deliver
}

/// The effect of an incoming Ethernet frame held in `data`.
pub open spec fn ethernet_ingress(
    pre: AarpStack,
    post: AarpStack,
    data: Seq<u8>,
    r: Result<Ingress, CrabbletalkError>,
) -> bool {
    let payload = data.subrange(22, data.len() as int);
    if data.len() < 22 {
        r == Err::<Ingress, CrabbletalkError>(CrabbletalkError::MalformedFrame) && post == pre
    } else if from_be16(data[12], data[13]) > ELAP_MAX_LENGTH {
        r == Ok::<Ingress, CrabbletalkError>(Ingress::Ignored) && post == pre
    } else if data[14] / 2 != SNAP_PROTOCOL || data[15] / 2 != SNAP_PROTOCOL {
        r == Ok::<Ingress, CrabbletalkError>(Ingress::Ignored) && post == pre
    } else if from_be16(data[20], data[21]) == ETHERTYPE_AARP {
        aarp_ingress(pre, post, payload, r)
    } else if from_be16(data[20], data[21]) == ETHERTYPE_APPLETALK {
        ddp_ingress(pre, payload, r) && post == pre
    } else {
        r == Ok::<Ingress, CrabbletalkError>(Ingress::Ignored) && post == pre
    }
}

/// The ELAP length field of a DDP frame with `n` payload bytes.
pub open spec fn ddp_frame_length(n: int) -> int {
    8 + 13 + n
}

/// The header that the stack sends for a datagram `d` with `n` payload
/// bytes, from our accepted address `mine`.
pub open spec fn filled_ddp_spec(d: Ddp, mine: Appletalk, n: int) -> Ddp {
    Ddp { src_net: mine.net, src_node: mine.node, length: (13 + n) as u16, ..d }
}

/// A whole DDP frame to `dest` from `me`.
pub open spec fn ddp_frame_spec(dest: Mac, me: Mac, d: Ddp, payload: Seq<u8>) -> Seq<u8> {
    snap_header_spec(
        dest.spec_bytes(),
        me.spec_bytes(),
        ddp_frame_length(payload.len() as int) as u16,
        apple_oui_spec(),
        ETHERTYPE_APPLETALK,
    ) + d.spec_pack() + payload
}

/// The largest DDP payload: the ten-bit length field counts the header too.
pub const DDP_MAX_PAYLOAD: usize = 1010;

/// How a destination's Ethernet address was looked up.
#[derive(Debug, Clone)]
pub enum Lookup {
    /// It is known.
    Found(Mac),
    /// It is not known; send this AARP request and wait for the answer.
    Requested(AppletalkPacket),
    /// It is not known, and no request can go out before our address is accepted.
    Awaiting,
}

/// The stack's state: our Ethernet address, the address phase, the address
/// mapping table and the sockets that are open.
pub struct AarpStack {
    my_addr_ethernet: Mac,
    phase: AddressPhase,
    amt: Amt,
    sockets: Vec<u8>,
}

impl AarpStack {
    pub closed spec fn wf(self) -> bool {
        self.amt.wf()
    }

    pub closed spec fn spec_mac(self) -> Mac {
        self.my_addr_ethernet
    }

    pub closed spec fn spec_phase(self) -> AddressPhase {
        self.phase
    }

    pub closed spec fn spec_amt(self) -> Amt {
        self.amt
    }

    /// The socket numbers in use.
    pub closed spec fn spec_sockets(self) -> Seq<u8> {
        self.sockets@
    }

    /// A stack for the host with Ethernet address `hw`: uninitialised, with an
    /// empty table and no sockets.
    pub fn new(hw: Mac) -> (r: AarpStack)
        ensures
            r.wf(),
            r.spec_mac() == hw,
            r.spec_phase() == AddressPhase::Uninitialized,
            r.spec_amt().atalk_view() == Map::<Appletalk, Option<Mac>>::empty(),
            r.spec_amt().hw_view() == Map::<Mac, Appletalk>::empty(),
            r.spec_sockets() == Seq::<u8>::empty(),
    {
        AarpStack {
            my_addr_ethernet: hw,
            phase: AddressPhase::Uninitialized,
            amt: Amt::new(),
            sockets: Vec::new(),
        }
    }

    pub fn my_addr_ethernet(&self) -> (r: Mac)
        ensures
            r == self.spec_mac(),
    {
        self.my_addr_ethernet
    }

    pub fn phase(&self) -> (r: AddressPhase)
        ensures
            r == self.spec_phase(),
    {
        self.phase
    }

    /// Acts on a decoded AARP packet that arrived at time `now`: flags a
    /// conflict with the address being tried out, answers a question about our
    /// accepted address, and learns the sender's mapping, stamped `now`, from
    /// requests and responses.
    pub fn handle_aarp(&mut self, a: &Aarp, now: i64) -> (r: Ingress)
        requires
            old(self).wf(),
        ensures
            final(self).wf(),
            aarp_handled(*old(self), *final(self), *a, r, now),
    {
        let r = match self.phase {
            AddressPhase::Tentative { addr } => {
                if (a.function == AarpFunction::Probe && a.destination_appletalk == addr) || (
                a.function == AarpFunction::Response && a.source_appletalk == addr) {
                    Ingress::Conflict
                } else {
                    Ingress::Ignored
                }
            },
            AddressPhase::Accepted { addr } => {
                if (a.function == AarpFunction::Request || a.function == AarpFunction::Probe)
                    && a.destination_appletalk == addr {
                    let body = aarp_body(
                        AarpFunction::Response,
                        self.my_addr_ethernet,
                        addr,
                        a.source_hw,
                        a.source_appletalk,
                    );
                    Ingress::Reply(write_aarp(a.source_hw, self.my_addr_ethernet, &body))
                } else {
                    Ingress::Ignored
                }
            },
            AddressPhase::Uninitialized => Ingress::Ignored,
        };
        if a.function == AarpFunction::Request || a.function == AarpFunction::Response {
            self.amt.insert(a.source_hw, a.source_appletalk, now);
        }
        r
    }
    /// Decodes and handles an incoming AARP packet.
    pub fn process_aarp(&mut self, data: &[u8]) -> (r: Result<Ingress, CrabbletalkError>)
        requires
            old(self).wf(),
        ensures
            final(self).wf(),
            aarp_ingress(*old(self), *final(self), data@, r),
    {
        match Aarp::unpack_split(data) {
            Ok((a, _)) => {
                let now = now_millis();
                let r = self.handle_aarp(&a, now);
                Ok(r)
            },
            Err(e) => Err(e),
        }
    }

    /// Decodes an incoming DDP datagram and routes it: to the open socket it
    /// names, when it is addressed to us or to everyone; otherwise nowhere.
    pub fn process_ddp(&mut self, elap: &Elap, data: &[u8]) -> (r: Result<Ingress, CrabbletalkError>)
        ensures
            *final(self) == *old(self),
            ddp_ingress(*old(self), data@, r),
    {
        let (d, _) = match Ddp::unpack_split(data) {
            Ok(x) => x,
            Err(e) => {
                return Err(e);
            },
        };
        let len = d.length as usize;
        if len < DDP_SIZE || len > data.len() {
            return Err(CrabbletalkError::MalformedFrame);
        }
        let payload = vstd::slice::slice_subrange(data, DDP_SIZE, len);
        let covered = vstd::slice::slice_subrange(data, 4, len);
        let ours = match self.phase {
            AddressPhase::Accepted { addr } => {
                let dest = d.destination();
                dest == addr || dest == appletalk_broadcast()
            },
            _ => false,
        };
        let dest_socket = d.dest_socket.to_primitive();
        if ours && self.socket_in_use(dest_socket) && d.checksum_accepts(covered, payload) {
            Ok(
                Ingress::Deliver(
                    DdpDelivery {
                        socket: d.dest_socket,
                        ddp: d,
                        payload: vstd::slice::slice_to_vec(payload),
                    },
                ),
            )
        } else {
            Ok(Ingress::Ignored)
        }
    }

    /// Decodes an incoming Ethernet frame and dispatches it by ethertype.
    /// Frames longer than the link allows, frames that are not SNAP, and
    /// frames of another protocol are dropped silently, changing nothing.
    pub fn process_ethernet(&mut self, data: &[u8]) -> (r: Result<Ingress, CrabbletalkError>)
        requires
            old(self).wf(),
        ensures
            final(self).wf(),
            ethernet_ingress(*old(self), *final(self), data@, r),
    {
        let (elap, payload) = match Elap::unpack_split(data) {
            Ok(x) => x,
            Err(e) => {
                return Err(e);
            },
        };
        if elap.length > ELAP_MAX_LENGTH {
            return Ok(Ingress::Ignored);
        }
        if elap.dsap.protocol != SNAP_PROTOCOL || elap.ssap.protocol != SNAP_PROTOCOL {
            return Ok(Ingress::Ignored);
        }
        if elap.ethertype.protocol == ETHERTYPE_AARP {
            self.process_aarp(payload)
        } else if elap.ethertype.protocol == ETHERTYPE_APPLETALK {
            self.process_ddp(&elap, payload)
        } else {
            Ok(Ingress::Ignored)
        }
    }

    /// Whether socket number `n` is open.
    pub fn socket_in_use(&self, n: u8) -> (r: bool)
        ensures
            r == self.spec_sockets().contains(n),
    {
        let mut i: usize = 0;
        while i < self.sockets.len()
            invariant
                i <= self.sockets@.len(),
                forall|j: int| 0 <= j < i ==> self.sockets@[j] != n,
            decreases self.sockets@.len() - i,
        {
            if self.sockets[i] == n {
                return true;
            }
            i = i + 1;
        }
        false
    }
    /// Installs a new address phase. While tentative, the probe for the
    /// candidate address is returned for sending.
    pub fn set_phase(&mut self, phase: AddressPhase) -> (r: Option<AppletalkPacket>)
        requires
            old(self).wf(),
        ensures
            final(self).wf(),
            final(self).spec_phase() == phase,
            final(self).spec_mac() == old(self).spec_mac(),
            final(self).spec_amt() == old(self).spec_amt(),
            final(self).spec_sockets() == old(self).spec_sockets(),
            phase is Tentative <==> r is Some,
            r matches Some(p) ==> p.0@ == probe_frame_spec(old(self).spec_mac(), phase->Tentative_addr),
    {
        self.phase = phase;
        self.maybe_probe_phase()
    }

    /// The probe to send now: one for the candidate address while tentative,
    /// none otherwise.
    pub fn maybe_probe_phase(&self) -> (r: Option<AppletalkPacket>)
        ensures
            self.spec_phase() is Tentative <==> r is Some,
            r matches Some(p) ==> p.0@ == probe_frame_spec(
                self.spec_mac(),
                self.spec_phase()->Tentative_addr,
            ),
    {
        match self.phase {
            AddressPhase::Tentative { addr } => {
                let body = aarp_body(
                    AarpFunction::Probe,
                    self.my_addr_ethernet,
                    addr,
                    zero_mac(),
                    addr,
                );
                let dest = appletalk_broadcast_mac();
                let r = write_aarp(dest, self.my_addr_ethernet, &body);
                assert(dest.spec_bytes() =~= broadcast_mac_bytes());
                Some(r)
            },
            _ => None,
        }
    }

    /// The address to publish as ours: only an accepted one.
    pub fn next_address(&self) -> (r: Option<Appletalk>)
        ensures
            r == match self.spec_phase() {
                AddressPhase::Accepted { addr } => Some(addr),
                _ => None,
            },
    {
        self.phase.published()
    }

    /// The Ethernet address of `atalk` if it is known without asking.
    pub open spec fn hw_known_spec(self, atalk: Appletalk) -> Option<Mac> {
        if atalk == appletalk_broadcast_spec() {
            Some(appletalk_broadcast_mac_spec())
        } else if self.spec_phase() == (AddressPhase::Accepted { addr: atalk }) {
            Some(self.spec_mac())
        } else if self.spec_amt().atalk_view().contains_key(atalk) {
            self.spec_amt().atalk_view()[atalk]
        } else {
            None
        }
    }

    /// The Ethernet address of `atalk` if it is known without asking: the
    /// broadcast address for the broadcast, ours for our accepted address,
    /// else what the table holds.
    pub fn hw_known(&self, atalk: Appletalk) -> (r: Option<Mac>)
        requires
            self.wf(),
        ensures
            r == self.hw_known_spec(atalk),
    {
        if atalk == appletalk_broadcast() {
            return Some(appletalk_broadcast_mac());
        }
        match self.phase {
            AddressPhase::Accepted { addr } => {
                if addr == atalk {
                    return Some(self.my_addr_ethernet);
                }
            },
            _ => {},
        }
        self.amt.lookup_atalk(atalk)
    }

    /// Looks up the Ethernet address of `atalk`. When it is not known, the
    /// table gets an entry to fill, and once our address is accepted one AARP
    /// request goes out for it.
    pub fn hw_from_appletalk(&mut self, atalk: Appletalk) -> (r: Lookup)
        requires
            old(self).wf(),
        ensures
            final(self).wf(),
            final(self).spec_mac() == old(self).spec_mac(),
            final(self).spec_phase() == old(self).spec_phase(),
            final(self).spec_sockets() == old(self).spec_sockets(),
            final(self).spec_amt().hw_view() == old(self).spec_amt().hw_view(),
            old(self).hw_known_spec(atalk) matches Some(m) ==> r == Lookup::Found(m)
                && *final(self) == *old(self),
            old(self).hw_known_spec(atalk) is None ==> {
                &&& final(self).spec_amt().atalk_view() == (if old(self).spec_amt().atalk_view().contains_key(atalk) {
                    old(self).spec_amt().atalk_view()
                } else {
                    old(self).spec_amt().atalk_view().insert(atalk, None)
                })
                &&& old(self).spec_phase() is Accepted ==> (r matches Lookup::Requested(p) && p.0@
                    == request_frame_spec(
                    old(self).spec_mac(),
                    old(self).spec_phase()->Accepted_addr,
                    atalk,
                ))
                &&& !(old(self).spec_phase() is Accepted) ==> r is Awaiting
            },
    {
        match self.hw_known(atalk) {
            Some(m) => {
                return Lookup::Found(m);
            },
            None => {},
        }
        self.amt.ensure_entry(atalk);
        match self.phase {
            AddressPhase::Accepted { addr } => {
                let body = aarp_body(
                    AarpFunction::Request,
                    self.my_addr_ethernet,
                    addr,
                    zero_mac(),
                    atalk,
                );
                let dest = appletalk_broadcast_mac();
                let r = write_aarp(dest, self.my_addr_ethernet, &body);
                assert(dest.spec_bytes() =~= broadcast_mac_bytes());
                Lookup::Requested(r)
            },
            _ => Lookup::Awaiting,
        }
    }

    /// Wraps an outgoing datagram for the wire: our accepted address as
    /// source, the length filled in, an ELAP header to `destination`.
    /// Fails with `Transient` before our address is accepted, and with
    /// `OversizeFrame` for a payload that the length field cannot count.
    pub fn write_ddp(&self, destination: Mac, ddp: Ddp, payload: &[u8]) -> (r: Result<
        AppletalkPacket,
        CrabbletalkError,
    >)
        requires
            ddp.hop_count < 16,
        ensures
            !(self.spec_phase() is Accepted) ==> r == Err::<AppletalkPacket, CrabbletalkError>(
                CrabbletalkError::Transient,
            ),
            self.spec_phase() is Accepted && payload@.len() > DDP_MAX_PAYLOAD ==> r == Err::<
                AppletalkPacket,
                CrabbletalkError,
            >(CrabbletalkError::OversizeFrame),
            self.spec_phase() is Accepted && payload@.len() <= DDP_MAX_PAYLOAD ==> (r matches Ok(p)
                && p.0@ == ddp_frame_spec(
                destination,
                self.spec_mac(),
                filled_ddp_spec(ddp, self.spec_phase()->Accepted_addr, payload@.len() as int),
                payload@,
            )),
    {
        let addr = match self.phase {
            AddressPhase::Accepted { addr } => addr,
            _ => {
                return Err(CrabbletalkError::Transient);
            },
        };
        if payload.len() > DDP_MAX_PAYLOAD {
            return Err(CrabbletalkError::OversizeFrame);
        }
        let mut d = ddp;
        d.set_source(addr);
        d.length = (DDP_SIZE + payload.len()) as u16;
        let elap = snap_header(
            destination,
            self.my_addr_ethernet,
            (8 + DDP_SIZE + payload.len()) as u16,
            apple_oui(),
            ETHERTYPE_APPLETALK,
        );
        let mut out = elap.pack();
        let h = d.pack();
        crate::wire::push_bytes(&mut out, h.as_slice());
        crate::wire::push_bytes(&mut out, payload);
        Ok(AppletalkPacket(out))
    }

    /// Opens socket `s`: fails with `Transient` if its number is in use.
    pub fn register_socket(&mut self, s: AppletalkSocket) -> (r: Result<(), CrabbletalkError>)
        requires
            old(self).wf(),
        ensures
            final(self).wf(),
            final(self).spec_mac() == old(self).spec_mac(),
            final(self).spec_phase() == old(self).spec_phase(),
            final(self).spec_amt() == old(self).spec_amt(),
            old(self).spec_sockets().contains(s.spec_to_u8()) ==> r == Err::<(), CrabbletalkError>(
                CrabbletalkError::Transient,
            ) && final(self).spec_sockets() == old(self).spec_sockets(),
            !old(self).spec_sockets().contains(s.spec_to_u8()) ==> r is Ok && final(self).spec_sockets()
                == old(self).spec_sockets().push(s.spec_to_u8()),
    {
        let n = s.to_primitive();
        if self.socket_in_use(n) {
            return Err(CrabbletalkError::Transient);
        }
        self.sockets.push(n);
        Ok(())
    }

    /// Closes socket number `n`.
    pub fn release_socket(&mut self, n: u8)
        requires
            old(self).wf(),
        ensures
            final(self).wf(),
            final(self).spec_mac() == old(self).spec_mac(),
            final(self).spec_phase() == old(self).spec_phase(),
            final(self).spec_amt() == old(self).spec_amt(),
            final(self).spec_sockets() == old(self).spec_sockets().filter(|x: u8| x != n),
    {
        let ghost s0 = self.sockets@;
        let mut kept: Vec<u8> = Vec::new();
        let mut i: usize = 0;
        while i < self.sockets.len()
            invariant
                i <= self.sockets@.len(),
                self.sockets@ == s0,
                kept@ == s0.subrange(0, i as int).filter(|x: u8| x != n),
            decreases self.sockets@.len() - i,
        {
            assert(s0.subrange(0, i + 1).drop_last() =~= s0.subrange(0, i as int));
            proof {
                reveal(Seq::filter);
            }
            if self.sockets[i] != n {
                kept.push(self.sockets[i]);
            }
            i = i + 1;
        }
        assert(s0.subrange(0, i as int) =~= s0);
        self.sockets = kept;
    }

    /// Opens a free dynamically assignable socket: a few random draws, then
    /// the first free number. Fails with `Transient` when all are in use.
    pub fn allocate_dynamic_socket(&mut self) -> (r: Result<AppletalkSocket, CrabbletalkError>)
        requires
            old(self).wf(),
        ensures
            final(self).wf(),
            final(self).spec_mac() == old(self).spec_mac(),
            final(self).spec_phase() == old(self).spec_phase(),
            final(self).spec_amt() == old(self).spec_amt(),
            r matches Ok(s) ==> (s matches AppletalkSocket::Dynamic(n) && DAS_FIRST <= n <= DAS_LAST
                && !old(self).spec_sockets().contains(n) && final(self).spec_sockets()
                == old(self).spec_sockets().push(n)),
            r is Err <==> (forall|n: u8|
                DAS_FIRST <= n <= DAS_LAST ==> #[trigger] old(self).spec_sockets().contains(n)),
            r is Err ==> r == Err::<AppletalkSocket, CrabbletalkError>(CrabbletalkError::Transient)
                && final(self).spec_sockets() == old(self).spec_sockets(),
    {
        let mut tries: u8 = 0;
        while tries < 8
            invariant
                self.wf(),
                self == old(self),
            decreases 8 - tries,
        {
            let s = AppletalkSocket::new_random_dynamic();
            let n = s.to_primitive();
            if !self.socket_in_use(n) {
                self.sockets.push(n);
                return Ok(s);
            }
            tries = tries + 1;
        }
        let mut n: u8 = DAS_FIRST;
        while n <= DAS_LAST
            invariant
                self.wf(),
                self == old(self),
                DAS_FIRST <= n <= DAS_LAST + 1,
                forall|k: u8| DAS_FIRST <= k < n ==> #[trigger] self.spec_sockets().contains(k),
            decreases DAS_LAST + 1 - n,
        {
            if !self.socket_in_use(n) {
                self.sockets.push(n);
                return Ok(AppletalkSocket::Dynamic(n));
            }
            n = n + 1;
        }
        Err(CrabbletalkError::Transient)
    }
}

/// A probe for the address being tried out, or a response from it, is a
/// conflict; the acquirer then tries the fresh candidate it drew, which
/// (as `next_candidate` draws it) differs from the address given up.
pub proof fn lemma_conflict_restarts(
    pre: AarpStack,
    post: AarpStack,
    a: Aarp,
    r: Ingress,
    now: i64,
    fresh: Appletalk,
)
    requires
        aarp_handled(pre, post, a, r, now),
        fresh != pre.spec_phase()->Tentative_addr,
        pre.spec_phase() is Tentative,
        a.function == AarpFunction::Probe && a.destination_appletalk
            == pre.spec_phase()->Tentative_addr || a.function == AarpFunction::Response
            && a.source_appletalk == pre.spec_phase()->Tentative_addr,
    ensures
        r is Conflict,
        pre.spec_phase().acquire_step_spec(AcquireEvent::Conflict, fresh) == (AddressPhase::Tentative {
            addr: fresh,
        }),
        pre.spec_phase().acquire_step_spec(AcquireEvent::Conflict, fresh) != pre.spec_phase(),
{
}

/// A request or probe for our accepted address is answered with a response
/// from our Ethernet and AppleTalk addresses to the asker's.
pub proof fn lemma_request_answered(pre: AarpStack, post: AarpStack, a: Aarp, r: Ingress, now: i64)
    requires
        aarp_handled(pre, post, a, r, now),
        pre.spec_phase() is Accepted,
        a.function == AarpFunction::Request || a.function == AarpFunction::Probe,
        a.destination_appletalk == pre.spec_phase()->Accepted_addr,
    ensures
        r matches Ingress::Reply(p) && p.0@ == response_frame_spec(
            pre.spec_mac(),
            pre.spec_phase()->Accepted_addr,
            a.source_hw,
            a.source_appletalk,
        ),
{
}

/// Requests and responses teach the table the sender's mapping, both ways,
/// stamped with the time they arrived; probes teach it nothing.
pub proof fn lemma_gleaning(pre: AarpStack, post: AarpStack, a: Aarp, r: Ingress, now: i64)
    requires
        aarp_handled(pre, post, a, r, now),
    ensures
        gleans_spec(a) ==> post.spec_amt().hw_view().contains_key(a.source_hw)
            && post.spec_amt().hw_view()[a.source_hw] == a.source_appletalk
            && post.spec_amt().atalk_view().contains_key(a.source_appletalk)
            && post.spec_amt().atalk_view()[a.source_appletalk] == Some(a.source_hw)
            && post.spec_amt().cell_of(a.source_appletalk) == Some(
            AmtEntryCell { hw: a.source_hw, atalk: a.source_appletalk, set_at: now },
        ),
        a.function == AarpFunction::Probe ==> post.spec_amt() == pre.spec_amt(),
{
    crate::amt::lemma_glean_resolves(
        pre.spec_amt().atalk_view(),
        pre.spec_amt().hw_view(),
        a.source_hw,
        a.source_appletalk,
    );
}

/// Once a response brings `(h, t)`, a resolver waiting on `t` (neither the
/// broadcast address nor our own) finds `h`.
pub proof fn lemma_response_resolves(pre: AarpStack, post: AarpStack, a: Aarp, r: Ingress, now: i64)
    requires
        aarp_handled(pre, post, a, r, now),
        a.function == AarpFunction::Response,
        a.source_appletalk != appletalk_broadcast_spec(),
        pre.spec_phase() != (AddressPhase::Accepted { addr: a.source_appletalk }),
    ensures
        post.hw_known_spec(a.source_appletalk) == Some(a.source_hw),
{
    lemma_gleaning(pre, post, a, r, now);
}

/// A datagram addressed neither to our accepted address nor to the
/// broadcast address is not delivered.
pub proof fn lemma_ddp_not_ours_dropped(st: AarpStack, data: Seq<u8>, r: Result<Ingress, CrabbletalkError>, d: Ddp)
    requires
        ddp_ingress(st, data, r),
        d.decoded_from(data),
        st.spec_phase() is Accepted ==> d.spec_destination() != st.spec_phase()->Accepted_addr,
        d.spec_destination() != appletalk_broadcast_spec(),
    ensures
        !(r matches Ok(Ingress::Deliver(_))),
{
}

} // verus!
