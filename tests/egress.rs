use crabbletalk::aarp::{AarpFunction, AarpHardware, AarpStack, AddressPhase, Aarp};
use crabbletalk::addr::{
    zero_oui, Appletalk, AppletalkNode, AppletalkSocket, DdpType, Ethertype, Mac, ETHERTYPE_AARP,
    ETHERTYPE_APPLETALK, SERVER_NODE_FIRST, SERVER_NODE_LAST, USER_NODE_FIRST, USER_NODE_LAST,
};
use crabbletalk::ddp::{Ddp, DdpHeader, DdpSocket};
use crabbletalk::egress::{Egress, EgressQueue, RESOLVE_TICKS};
use crabbletalk::link::{snap_header, Elap};
use crabbletalk::UnpackSplit;

fn mac(b: [u8; 6]) -> Mac {
    Mac { oui: [b[0], b[1], b[2]], nic: [b[3], b[4], b[5]] }
}

fn at(net: u16, node: u8) -> Appletalk {
    Appletalk { net, node: AppletalkNode::Node(node) }
}

fn me() -> Mac {
    mac([0x52, 0x54, 0x00, 0x01, 0x02, 0x03])
}

fn response(from_hw: Mac, from: Appletalk, to: Appletalk) -> Vec<u8> {
    let elap = snap_header(me(), from_hw, 36, zero_oui(), ETHERTYPE_AARP);
    let body = Aarp {
        hardware: AarpHardware::Ethernet,
        protocol: Ethertype { protocol: ETHERTYPE_APPLETALK },
        hw_address_len: 6,
        protocol_address_len: 4,
        function: AarpFunction::Response,
        source_hw: from_hw,
        source_appletalk: from,
        destination_hw: me(),
        destination_appletalk: to,
    };
    let mut out = elap.pack();
    out.extend_from_slice(&body.pack());
    out
}

fn datagram(to: Appletalk, payload: &[u8]) -> (Ddp, Vec<u8>) {
    let sock = DdpSocket { addr: at(0xFF10, 0x42), socket: AppletalkSocket::Dynamic(0x90) };
    sock.sendto(payload, DdpHeader { addr: to, socket: AppletalkSocket::Dynamic(0x80), typ: DdpType { typ: 1 } })
}

fn payload_of(frame: &[u8]) -> Vec<u8> {
    let (_, rest) = Elap::unpack_split(frame).unwrap();
    let (_, body) = Ddp::unpack_split(rest).unwrap();
    body.to_vec()
}

fn accepted() -> AarpStack {
    let mut s = AarpStack::new(me());
    s.set_phase(AddressPhase::Accepted { addr: at(0xFF10, 0x42) });
    s
}

#[test]
fn queued_datagram_sent_after_response() {
    let mut s = accepted();
    let mut q = EgressQueue::new();
    let peer = at(0xFF20, 0x55);
    let (d, p) = datagram(peer, b"one");
    match q.push(&mut s, 0x90, d, p) {
        Egress::Queued(Some(req)) => {
            let (_, rest) = Elap::unpack_split(&req.0).unwrap();
            let (a, _) = Aarp::unpack_split(rest).unwrap();
            assert_eq!(a.function, AarpFunction::Request);
            assert_eq!(a.destination_appletalk, peer);
        }
        other => panic!("expected a queued datagram with a request, got {:?}", other),
    }
    let (frames, dropped) = q.step(&mut s, false);
    assert!(frames.is_empty() && dropped.is_empty());
    s.process_ethernet(&response(mac([0xAA; 6]), peer, at(0xFF10, 0x42))).unwrap();
    let (frames, dropped) = q.step(&mut s, false);
    assert!(dropped.is_empty());
    assert_eq!(frames.len(), 1);
    assert_eq!(payload_of(&frames[0].0), b"one".to_vec());
    let (frames, _) = q.step(&mut s, false);
    assert!(frames.is_empty());
}

#[test]
fn later_datagram_does_not_overtake() {
    let mut s = accepted();
    let mut q = EgressQueue::new();
    let silent = at(0xFF20, 0x55);
    let known = at(0xFF30, 0x07);
    s.process_ethernet(&response(mac([0xBB; 6]), known, at(0xFF10, 0x42))).unwrap();
    let (d, p) = datagram(silent, b"first");
    assert!(matches!(q.push(&mut s, 0x90, d, p), Egress::Queued(Some(_))));
    let (d, p) = datagram(known, b"second");
    assert!(matches!(q.push(&mut s, 0x90, d, p), Egress::Queued(None)));
    // another socket is not held back
    let (d, p) = datagram(known, b"other");
    assert!(matches!(q.push(&mut s, 0x91, d, p), Egress::Sent(_)));
    let (frames, _) = q.step(&mut s, false);
    assert!(frames.is_empty());
    s.process_ethernet(&response(mac([0xAA; 6]), silent, at(0xFF10, 0x42))).unwrap();
    let (frames, _) = q.step(&mut s, false);
    assert_eq!(frames.len(), 2);
    assert_eq!(payload_of(&frames[0].0), b"first".to_vec());
    assert_eq!(payload_of(&frames[1].0), b"second".to_vec());
}

#[test]
fn silent_peer_gives_up_after_ticks() {
    let mut s = accepted();
    let mut q = EgressQueue::new();
    let silent = at(0xFF20, 0x55);
    let (d, p) = datagram(silent, b"lost");
    assert!(matches!(q.push(&mut s, 0x90, d, p), Egress::Queued(Some(_))));
    for _ in 0..RESOLVE_TICKS {
        let (frames, dropped) = q.step(&mut s, true);
        assert!(frames.is_empty(), "no second request");
        assert!(dropped.is_empty());
    }
    let (frames, dropped) = q.step(&mut s, true);
    assert!(frames.is_empty());
    assert_eq!(dropped.len(), 1);
    assert_eq!(dropped[0].destination(), silent);
    let (frames, dropped) = q.step(&mut s, true);
    assert!(frames.is_empty() && dropped.is_empty());
}

#[test]
fn request_goes_out_once_address_accepted() {
    let mut s = AarpStack::new(me());
    let mut q = EgressQueue::new();
    let peer = at(0xFF20, 0x55);
    let (d, p) = datagram(peer, b"early");
    assert!(matches!(q.push(&mut s, 0x90, d, p), Egress::Queued(None)));
    let (frames, _) = q.step(&mut s, false);
    assert!(frames.is_empty());
    s.set_phase(AddressPhase::Accepted { addr: at(0xFF10, 0x42) });
    let (frames, _) = q.step(&mut s, false);
    assert_eq!(frames.len(), 1);
    let (_, rest) = Elap::unpack_split(&frames[0].0).unwrap();
    let (a, _) = Aarp::unpack_split(rest).unwrap();
    assert_eq!(a.function, AarpFunction::Request);
    let (frames, _) = q.step(&mut s, false);
    assert!(frames.is_empty());
}

#[test]
fn node_range_constants() {
    assert_eq!((USER_NODE_FIRST, USER_NODE_LAST), (0x01, 0x7F));
    assert_eq!((SERVER_NODE_FIRST, SERVER_NODE_LAST), (0x80, 0xFE));
}
