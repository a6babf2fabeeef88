use std::path::PathBuf;

use crabbletalk::addr::{Appletalk, AppletalkNode, AppletalkSocket, DdpType};
use crabbletalk::afpd::UnlinkOnDrop;
use crabbletalk::client::{
    bind_reply, client_incoming, client_outgoing, datagram_from_client, message_to_client, requested_socket,
    SockaddrAt,
    AF_APPLETALK,
};
use crabbletalk::ddp::{Ddp, DdpSocket};

#[test]
fn sockaddr_round_trip() {
    let a = SockaddrAt { family: AF_APPLETALK, port: 0x81, net: 0xFF10, node: 0x42, typ: 4 };
    let b = a.pack();
    assert_eq!(b, vec![5, 0, 0x81, 0, 0x10, 0xFF, 0x42, 0, 4, 0, 0, 0, 0, 0, 0, 0]);
    assert_eq!(SockaddrAt::unpack(&b), Some(a));
    assert_eq!(SockaddrAt::unpack(&b[..15]), None);
}

#[test]
fn client_type_byte_moves_into_address() {
    let dest = SockaddrAt { family: AF_APPLETALK, port: 0x80, net: 0xFF20, node: 0x55, typ: 0 };
    assert_eq!(client_outgoing(&dest, &[]), None);
    let msg = client_outgoing(&dest, b"\x04ping").unwrap();
    let (h, p) = datagram_from_client(&msg).unwrap();
    assert_eq!(h.addr, Appletalk { net: 0xFF20, node: AppletalkNode::Node(0x55) });
    assert_eq!(h.socket, AppletalkSocket::Dynamic(0x80));
    assert_eq!(h.typ, DdpType { typ: 4 });
    assert_eq!(p, b"ping".to_vec());
    assert!(datagram_from_client(&msg[..10]).is_none());
}

#[test]
fn client_type_byte_restored_on_receipt() {
    let d = Ddp {
        hop_count: 0,
        length: 17,
        checksum: 0,
        dest_net: 0xFF10,
        src_net: 0xFF20,
        dest_node: AppletalkNode::Node(0x42),
        src_node: AppletalkNode::Node(0x55),
        dest_socket: AppletalkSocket::Dynamic(0x81),
        src_socket: AppletalkSocket::Dynamic(0x80),
        typ: DdpType { typ: 4 },
    };
    let msg = message_to_client(&d, b"pong");
    let (a, data) = client_incoming(&msg).unwrap();
    assert_eq!(a.net, 0xFF20);
    assert_eq!(a.node, 0x55);
    assert_eq!(a.port, 0x80);
    assert_eq!(data, b"\x04pong".to_vec());
}

#[test]
fn bind_reply_names_endpoint() {
    let s = DdpSocket {
        addr: Appletalk { net: 0xFF10, node: AppletalkNode::Node(0x42) },
        socket: AppletalkSocket::Dynamic(0x90),
    };
    let r = bind_reply(&s);
    assert_eq!(r, SockaddrAt { family: 0, port: 0x90, net: 0xFF10, node: 0x42, typ: 0 });
    assert_eq!(r.pack(), vec![0, 0, 0x90, 0, 0x10, 0xFF, 0x42, 0, 0, 0, 0, 0, 0, 0, 0, 0]);
}

#[test]
fn requested_socket_from_bind_request() {
    let any = SockaddrAt { family: AF_APPLETALK, port: 0, net: 0, node: 0, typ: 0 };
    assert_eq!(requested_socket(&any), None);
    let reserved = SockaddrAt { port: 254, ..any };
    assert_eq!(requested_socket(&reserved), None);
    let dynamic = SockaddrAt { port: 0x85, ..any };
    assert_eq!(requested_socket(&dynamic), Some(AppletalkSocket::Dynamic(0x85)));
    let aep = SockaddrAt { port: 4, ..any };
    assert_eq!(requested_socket(&aep), Some(AppletalkSocket::StaticSas(crabbletalk::addr::Sas::Aep)));
}

#[test]
fn unlink_on_drop_keeps_path() {
    let u = UnlinkOnDrop::new(PathBuf::from("/tmp/some.sock"));
    assert_eq!(u.path(), &PathBuf::from("/tmp/some.sock"));
}
