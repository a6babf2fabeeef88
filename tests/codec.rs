use crabbletalk::aarp::{Aarp, AarpFunction, AarpHardware, AepFunction};
use crabbletalk::addr::{
    apple_oui, Appletalk, AppletalkNode, AppletalkNodePrim, AppletalkSocket, AppletalkSocketPrim,
    DdpType, Ethertype, Mac, Sap, Sas, ETHERTYPE_AARP, ETHERTYPE_APPLETALK,
};
use crabbletalk::ddp::{ddp_checksum, Ddp, DdpHeader, DdpSocket};
use crabbletalk::link::{snap_header, Elap};
use crabbletalk::{CrabbletalkError, UnpackSplit};

fn mac(b: [u8; 6]) -> Mac {
    Mac { oui: [b[0], b[1], b[2]], nic: [b[3], b[4], b[5]] }
}

fn rol(x: u16) -> u16 {
    x.rotate_left(1)
}

fn sample_ddp() -> Ddp {
    Ddp {
        hop_count: 5,
        length: 600,
        checksum: 0x1234,
        dest_net: 0xFF20,
        src_net: 0xFF10,
        dest_node: AppletalkNode::Node(0x55),
        src_node: AppletalkNode::Broadcast,
        dest_socket: AppletalkSocket::Dynamic(0x80),
        src_socket: AppletalkSocket::StaticSas(Sas::Aep),
        typ: DdpType { typ: 4 },
    }
}

#[test]
fn elap_round_trip() {
    let e = Elap {
        destination: mac([1, 2, 3, 4, 5, 6]),
        source: mac([7, 8, 9, 10, 11, 12]),
        length: 0x1234,
        dsap: Sap { protocol: 0x55 },
        ig: true,
        ssap: Sap { protocol: 0x12 },
        cr: false,
        control: 3,
        oui: [8, 0, 7],
        ethertype: Ethertype { protocol: 0x809B },
    };
    let bytes = e.pack();
    assert_eq!(
        bytes,
        vec![1, 2, 3, 4, 5, 6, 7, 8, 9, 10, 11, 12, 0x12, 0x34, 0xAB, 0x24, 3, 8, 0, 7, 0x80, 0x9B]
    );
    let mut with_trailer = bytes.clone();
    with_trailer.extend_from_slice(&[0xDE, 0xAD]);
    let (d, rest) = Elap::unpack_split(&with_trailer).unwrap();
    assert_eq!(rest, &[0xDE, 0xAD]);
    assert_eq!(d.pack(), bytes);
    assert!(d.destination == e.destination && d.source == e.source);
    assert_eq!(d.length, 0x1234);
    assert_eq!(d.dsap, Sap { protocol: 0x55 });
    assert!(d.ig);
    assert!(!d.cr);
    assert_eq!(d.ethertype, Ethertype { protocol: 0x809B });
}

#[test]
fn elap_short_is_malformed() {
    let r = Elap::unpack_split(&[0u8; 21]);
    assert!(matches!(r, Err(CrabbletalkError::MalformedFrame)));
}

#[test]
fn snap_header_fields() {
    let e = snap_header(mac([1; 6]), mac([2; 6]), 21, apple_oui(), ETHERTYPE_APPLETALK);
    let b = e.pack();
    assert_eq!(&b[12..22], &[0, 21, 0xAA, 0xAA, 3, 8, 0, 7, 0x80, 0x9B]);
}

#[test]
fn ddp_round_trip() {
    let d = sample_ddp();
    let bytes = d.pack();
    assert_eq!(
        bytes,
        vec![0x16, 0x58, 0x12, 0x34, 0xFF, 0x20, 0xFF, 0x10, 0x55, 0xFF, 0x80, 4, 4]
    );
    let (e, rest) = Ddp::unpack_split(&bytes).unwrap();
    assert!(rest.is_empty());
    assert_eq!(e.pack(), bytes);
    assert_eq!(e.hop_count, 5);
    assert_eq!(e.length, 600);
    assert_eq!(e.destination(), Appletalk { net: 0xFF20, node: AppletalkNode::Node(0x55) });
    assert_eq!(e.src_socket, AppletalkSocket::StaticSas(Sas::Aep));
}

#[test]
fn ddp_bytes_round_trip() {
    let bytes = [0x3F, 0xFF, 0, 0, 0, 1, 0, 2, 0, 7, 0, 200, 9, 0xAA];
    let (d, rest) = Ddp::unpack_split(&bytes).unwrap();
    assert_eq!(rest, &[0xAA]);
    assert_eq!(d.hop_count, 15);
    assert_eq!(d.length, 1023);
    assert_eq!(d.dest_node, AppletalkNode::Unknown);
    assert_eq!(d.dest_socket, AppletalkSocket::Reserved0);
    assert_eq!(d.src_socket, AppletalkSocket::Dynamic(200));
    assert_eq!(d.pack(), bytes[..13].to_vec());
}

#[test]
fn ddp_short_is_malformed() {
    assert!(matches!(Ddp::unpack_split(&[0u8; 12]), Err(CrabbletalkError::MalformedFrame)));
}

fn sample_aarp() -> Aarp {
    Aarp {
        hardware: AarpHardware::Ethernet,
        protocol: Ethertype { protocol: ETHERTYPE_APPLETALK },
        hw_address_len: 6,
        protocol_address_len: 4,
        function: AarpFunction::Probe,
        source_hw: mac([0x52, 0x54, 0, 1, 2, 3]),
        source_appletalk: Appletalk { net: 0xFF10, node: AppletalkNode::Node(0x42) },
        destination_hw: mac([0; 6]),
        destination_appletalk: Appletalk { net: 0xFF10, node: AppletalkNode::Node(0x42) },
    }
}

#[test]
fn aarp_round_trip() {
    let a = sample_aarp();
    let bytes = a.pack();
    assert_eq!(bytes.len(), 28);
    assert_eq!(&bytes[..8], &[0, 1, 0x80, 0x9B, 6, 4, 0, 3]);
    assert_eq!(&bytes[8..18], &[0x52, 0x54, 0, 1, 2, 3, 0, 0xFF, 0x10, 0x42]);
    assert_eq!(&bytes[18..28], &[0, 0, 0, 0, 0, 0, 0, 0xFF, 0x10, 0x42]);
    let (b, rest) = Aarp::unpack_split(&bytes).unwrap();
    assert!(rest.is_empty());
    assert_eq!(b.pack(), bytes);
    assert_eq!(b.function, AarpFunction::Probe);
    assert_eq!(b.hardware, AarpHardware::Ethernet);
    assert!(b.source_hw == a.source_hw);
    assert_eq!(b.destination_appletalk, a.destination_appletalk);
}

#[test]
fn aarp_bad_hardware_is_malformed() {
    let mut bytes = sample_aarp().pack();
    bytes[1] = 3;
    assert!(matches!(Aarp::unpack_split(&bytes), Err(CrabbletalkError::MalformedFrame)));
    bytes[1] = 2;
    assert_eq!(Aarp::unpack_split(&bytes).unwrap().0.hardware, AarpHardware::TokenRing);
}

#[test]
fn aarp_bad_function_is_malformed() {
    let mut bytes = sample_aarp().pack();
    bytes[7] = 4;
    assert!(matches!(Aarp::unpack_split(&bytes), Err(CrabbletalkError::MalformedFrame)));
    bytes[7] = 0;
    assert!(matches!(Aarp::unpack_split(&bytes), Err(CrabbletalkError::MalformedFrame)));
}

#[test]
fn aarp_short_is_malformed() {
    let bytes = sample_aarp().pack();
    assert!(matches!(Aarp::unpack_split(&bytes[..27]), Err(CrabbletalkError::MalformedFrame)));
}

#[test]
fn checksum_of_empty_is_ffff() {
    assert_eq!(ddp_checksum(&[]), 0xFFFF);
}

#[test]
fn checksum_rotates_and_adds() {
    let mut sum = 0u16;
    for b in b"ping" {
        sum = rol(sum.wrapping_add(*b as u16));
    }
    assert_ne!(sum, 0);
    assert_eq!(ddp_checksum(b"ping"), sum);
    assert_eq!(ddp_checksum(&[1]), 2);
    assert_eq!(ddp_checksum(&[0x80, 0]), 0x0200);
    assert_eq!(ddp_checksum(&[0xFF, 0xFF]), 0x05FA);
}

#[test]
fn checksum_zero_sum_becomes_ffff() {
    assert_eq!(ddp_checksum(&[0, 0, 0]), 0xFFFF);
}

#[test]
fn stored_zero_checksum_is_not_checked() {
    let mut d = sample_ddp();
    d.checksum = 0;
    assert!(d.checksum_accepts(b"covered", b"anything"));
    d.set_checksum_from(b"ping");
    assert!(d.checksum_accepts(b"header and ping", b"ping"));
    assert!(d.checksum_accepts(b"ping", b"other"));
    assert!(!d.checksum_accepts(b"header and pong", b"pong"));
}

#[test]
fn ddp_source_destination_accessors() {
    let mut d = sample_ddp();
    let a = Appletalk { net: 7, node: AppletalkNode::Node(9) };
    d.set_source(a);
    assert_eq!(d.source(), a);
    d.set_destination(Appletalk { net: 0, node: AppletalkNode::Broadcast });
    assert_eq!(d.destination(), Appletalk { net: 0, node: AppletalkNode::Broadcast });
    assert_eq!(d.source(), a);
}

#[test]
fn socket_sendto_and_recvfrom() {
    let s = DdpSocket {
        addr: Appletalk { net: 0xFF10, node: AppletalkNode::Node(0x42) },
        socket: AppletalkSocket::Dynamic(0x90),
    };
    assert_eq!(s.local_addr(), Appletalk { net: 0xFF10, node: AppletalkNode::Node(0x42) });
    assert_eq!(s.local_socket(), AppletalkSocket::Dynamic(0x90));
    let dest = DdpHeader {
        addr: Appletalk { net: 0xFF20, node: AppletalkNode::Node(0x55) },
        socket: AppletalkSocket::Dynamic(0x80),
        typ: DdpType { typ: 4 },
    };
    let (d, payload) = s.sendto(b"ping", dest);
    assert_eq!(payload, b"ping".to_vec());
    assert_eq!(d.checksum, ddp_checksum(b"ping"));
    assert_eq!(d.src_socket, AppletalkSocket::Dynamic(0x90));
    assert_eq!(d.dest_socket, AppletalkSocket::Dynamic(0x80));
    assert_eq!(d.typ, DdpType { typ: 4 });

    let mut small = [0u8; 2];
    let (n, from) = s.recvfrom(&d, b"ping", &mut small);
    assert_eq!(n, 2);
    assert_eq!(&small, b"pi");
    assert_eq!(from.socket, AppletalkSocket::Dynamic(0x90));
    assert_eq!(from.typ, DdpType { typ: 4 });
    let mut big = [9u8; 6];
    let (n, _) = s.recvfrom(&d, b"ping", &mut big);
    assert_eq!(n, 4);
    assert_eq!(&big, &[b'p', b'i', b'n', b'g', 9, 9]);
}

#[test]
fn node_and_socket_primitives() {
    assert_eq!(AppletalkNode::from_primitive(0), Some(AppletalkNode::Unknown));
    assert_eq!(AppletalkNode::from_primitive(255), Some(AppletalkNode::Broadcast));
    assert_eq!(AppletalkNode::from_primitive(17), Some(AppletalkNode::Node(17)));
    assert_eq!(AppletalkNode::Node(17).to_primitive(), 17);
    assert_eq!(AppletalkNodePrim::from_primitive(255), Some(AppletalkNodePrim::Broadcast));
    assert_eq!(AppletalkNodePrim::from_primitive(3), None);
    assert_eq!(AppletalkSocket::from_primitive(2), Some(AppletalkSocket::StaticSas(Sas::Nbp)));
    assert_eq!(AppletalkSocket::from_primitive(4), Some(AppletalkSocket::StaticSas(Sas::Aep)));
    assert_eq!(AppletalkSocket::from_primitive(127), Some(AppletalkSocket::Static(127)));
    assert_eq!(AppletalkSocket::from_primitive(128), Some(AppletalkSocket::Dynamic(128)));
    assert_eq!(AppletalkSocket::from_primitive(253), Some(AppletalkSocket::Dynamic(253)));
    assert_eq!(AppletalkSocket::from_primitive(254), Some(AppletalkSocket::Reserved254));
    assert_eq!(AppletalkSocket::Reserved254.to_primitive(), 254);
    assert_eq!(AppletalkSocket::from_primitive(0), Some(AppletalkSocket::Reserved0));
    assert_eq!(AppletalkSocket::from_primitive(255), Some(AppletalkSocket::Reserved255));
    assert_eq!(AppletalkSocket::StaticSas(Sas::Nbp).to_primitive(), 2);
    assert_eq!(AppletalkSocketPrim::from_primitive(4), Some(AppletalkSocketPrim::SasAep));
    assert_eq!(AppletalkSocketPrim::SasNbp.to_primitive(), 2);
    assert_eq!(AepFunction::from_primitive(2), Some(AepFunction::Reply));
    assert_eq!(AepFunction::from_primitive(3), None);
}

#[test]
fn random_addresses_in_range() {
    for _ in 0..50 {
        let m = Mac::new_random();
        assert_eq!(m.oui, [0x52, 0x54, 0x00]);
        let a = Appletalk::new_random();
        assert!((0xFF00..=0xFFFE).contains(&a.net));
        match a.node {
            AppletalkNode::Node(n) => assert!((1..=254).contains(&n)),
            _ => panic!("not a node"),
        }
        match AppletalkSocket::new_random_dynamic() {
            AppletalkSocket::Dynamic(n) => assert!((128..=253).contains(&n)),
            _ => panic!("not dynamic"),
        }
    }
}

#[test]
fn ethertype_constants() {
    assert_eq!(ETHERTYPE_APPLETALK, 0x809B);
    assert_eq!(ETHERTYPE_AARP, 0x80F3);
}
