use neutrino::addr::{LinkAddr, LinkRequest, SocketAddress};
use neutrino::error::ProtocolError;

#[test]
fn as_socket_addr_ipv4() {
    let req = LinkRequest { addr: LinkAddr::IPv4([192, 168, 1, 2]), port: 8000 };
    assert_eq!(req.as_socket_addr(), Ok(SocketAddress::V4 { ip: [192, 168, 1, 2], port: 8000 }));
}

#[test]
fn as_socket_addr_ipv6() {
    let mut ip = [0u8; 16];
    ip[15] = 1;
    let req = LinkRequest { addr: LinkAddr::IPv6(ip), port: 9 };
    assert_eq!(req.as_socket_addr(), Ok(SocketAddress::V6 { ip, port: 9, flowinfo: 0, scope_id: 0 }));
}

#[test]
fn as_socket_addr_refuses_domain_and_unknown() {
    let req = LinkRequest { addr: LinkAddr::Domain(b"example.com".to_vec()), port: 80 };
    assert_eq!(req.as_socket_addr(), Err(ProtocolError::DomainNotSupported));
    let req = LinkRequest { addr: LinkAddr::Unknown(), port: 80 };
    assert_eq!(req.as_socket_addr(), Err(ProtocolError::UnknownAddress));
}

#[test]
fn socket_addr_to_request_and_back() {
    let addrs = vec![
        SocketAddress::V4 { ip: [127, 0, 0, 1], port: 1080 },
        SocketAddress::V6 { ip: [0xfe; 16], port: 443, flowinfo: 0, scope_id: 0 },
    ];
    for a in addrs {
        let req = LinkRequest::from(a);
        assert_eq!(req.port, match a {
            SocketAddress::V4 { port, .. } => port,
            SocketAddress::V6 { port, .. } => port,
        });
        assert_eq!(req.as_socket_addr(), Ok(a));
    }
    assert_eq!(
        LinkRequest::from(SocketAddress::V4 { ip: [1, 1, 1, 1], port: 53 }),
        LinkRequest { addr: LinkAddr::IPv4([1, 1, 1, 1]), port: 53 }
    );
}

#[test]
fn scope_id_is_not_kept_in_a_request() {
    let a = SocketAddress::V6 { ip: [0xfe, 0x80, 0, 0, 0, 0, 0, 0, 0, 0, 0, 0, 0, 0, 0, 1], port: 1080, flowinfo: 7, scope_id: 2 };
    let req = LinkRequest::from(a);
    assert_eq!(
        req.as_socket_addr(),
        Ok(SocketAddress::V6 { ip: [0xfe, 0x80, 0, 0, 0, 0, 0, 0, 0, 0, 0, 0, 0, 0, 0, 1], port: 1080, flowinfo: 0, scope_id: 0 })
    );
}
