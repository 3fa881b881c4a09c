use neutrino::addr::{LinkAddr, LinkRequest};
use neutrino::error::ProtocolError;
use neutrino::socks5::{
    read_auth_response, read_options, read_request, read_response, send_auth_response,
    send_option, send_request, send_response, Parsed, Reply, ReplyType,
};

fn all_reply_types() -> Vec<ReplyType> {
    vec![
        ReplyType::Succeeded,
        ReplyType::GeneralFailure,
        ReplyType::Unreachable,
        ReplyType::Refused,
        ReplyType::TTLExpired,
        ReplyType::AddressNotSupported,
        ReplyType::Unsupported,
    ]
}

#[test]
fn reply_codes_are_the_socks5_codes() {
    let codes: Vec<u8> = all_reply_types().iter().map(|r| r.to_num()).collect();
    assert_eq!(codes, vec![0, 1, 2, 3, 4, 5, 6]);
    assert_eq!(ReplyType::from_num(0), ReplyType::Succeeded);
    assert_eq!(ReplyType::from_num(4), ReplyType::TTLExpired);
    assert_eq!(ReplyType::from_num(5), ReplyType::AddressNotSupported);
}

#[test]
fn reply_code_roundtrip_and_saturation() {
    for r in all_reply_types() {
        assert_eq!(ReplyType::from_num(r.to_num()), r);
    }
    for n in 0u8..=255 {
        let expected = if n <= 6 { n } else { 6 };
        assert_eq!(ReplyType::from_num(n).to_num(), expected);
    }
    assert_eq!(ReplyType::from_num(7), ReplyType::Unsupported);
    assert_eq!(ReplyType::from_num(255), ReplyType::Unsupported);
}

#[test]
fn reply_for_connection_outcome() {
    assert_eq!(ReplyType::for_connection(true), ReplyType::Succeeded);
    assert_eq!(ReplyType::for_connection(false), ReplyType::GeneralFailure);
}

#[test]
fn link_addr_write_ipv4() {
    let mut out = vec![9u8];
    assert_eq!(LinkAddr::IPv4([10, 0, 0, 1]).write(&mut out), Ok(()));
    assert_eq!(out, vec![9, 1, 10, 0, 0, 1]);
}

#[test]
fn link_addr_write_ipv6() {
    let mut out = Vec::new();
    let ip = [0x20, 0x01, 0x0d, 0xb8, 0, 0, 0, 0, 0, 0, 0, 0, 0, 0, 0, 1];
    assert_eq!(LinkAddr::IPv6(ip).write(&mut out), Ok(()));
    let mut expected = vec![4u8];
    expected.extend_from_slice(&ip);
    assert_eq!(out, expected);
}

#[test]
fn link_addr_write_domain() {
    let mut out = Vec::new();
    assert_eq!(LinkAddr::Domain(b"example.org".to_vec()).write(&mut out), Ok(()));
    let mut expected = vec![3u8, 11];
    expected.extend_from_slice(b"example.org");
    assert_eq!(out, expected);
}

#[test]
fn link_addr_write_domain_of_255_bytes() {
    let mut out = Vec::new();
    assert_eq!(LinkAddr::Domain(vec![b'a'; 255]).write(&mut out), Ok(()));
    assert_eq!(out.len(), 257);
    assert_eq!(out[1], 255);
}

#[test]
fn link_addr_write_domain_too_long() {
    let mut out = vec![7u8];
    assert_eq!(
        LinkAddr::Domain(vec![b'a'; 256]).write(&mut out),
        Err(ProtocolError::DomainTooLong)
    );
    assert_eq!(out, vec![7]);
}

#[test]
fn link_addr_write_unknown() {
    let mut out = Vec::new();
    assert_eq!(LinkAddr::Unknown().write(&mut out), Err(ProtocolError::UnwritableAddress));
    assert!(out.is_empty());
}

#[test]
fn greeting_and_method_bytes() {
    let mut out = Vec::new();
    send_option(&mut out);
    assert_eq!(out, vec![5, 1, 0]);
    let mut out = Vec::new();
    send_auth_response(&mut out);
    assert_eq!(out, vec![5, 0]);
}

#[test]
fn request_bytes_ipv4() {
    let mut out = Vec::new();
    let req = LinkRequest { addr: LinkAddr::IPv4([93, 184, 216, 34]), port: 443 };
    assert_eq!(send_request(&mut out, req), Ok(()));
    assert_eq!(out, vec![5, 1, 0, 1, 93, 184, 216, 34, 1, 187]);
}

#[test]
fn request_bytes_domain() {
    let mut out = Vec::new();
    let req = LinkRequest { addr: LinkAddr::Domain(b"a.b".to_vec()), port: 8080 };
    assert_eq!(send_request(&mut out, req), Ok(()));
    assert_eq!(out, vec![5, 1, 0, 3, 3, b'a', b'.', b'b', 0x1f, 0x90]);
}

#[test]
fn request_with_unknown_address_writes_only_its_header() {
    let mut out = Vec::new();
    let req = LinkRequest { addr: LinkAddr::Unknown(), port: 1 };
    assert_eq!(send_request(&mut out, req), Err(ProtocolError::UnwritableAddress));
    assert_eq!(out, vec![5, 1, 0]);
}

#[test]
fn response_bytes() {
    for r in all_reply_types() {
        let mut out = Vec::new();
        send_response(&mut out, r);
        assert_eq!(out, vec![5, r.to_num(), 0, 1, 0, 0, 0, 0, 0, 0]);
    }
}

#[test]
fn read_options_cases() {
    assert_eq!(read_options(&[]), Parsed::NeedMore(1));
    assert_eq!(read_options(&[4]), Parsed::Invalid(ProtocolError::UnsupportedVersion));
    assert_eq!(read_options(&[5]), Parsed::NeedMore(1));
    assert_eq!(read_options(&[5, 3]), Parsed::NeedMore(3));
    assert_eq!(read_options(&[5, 3, 0]), Parsed::NeedMore(2));
    assert_eq!(read_options(&[5, 3, 0, 1, 2]), Parsed::Done(vec![0, 1, 2], 5));
    assert_eq!(read_options(&[5, 0]), Parsed::Done(vec![], 2));
    assert_eq!(read_options(&[5, 1, 0]), Parsed::Done(vec![0], 3));
}

#[test]
fn read_auth_response_cases() {
    assert_eq!(read_auth_response(&[]), Parsed::NeedMore(1));
    assert_eq!(read_auth_response(&[5]), Parsed::NeedMore(1));
    assert_eq!(read_auth_response(&[5, 0]), Parsed::Done((), 2));
    assert_eq!(read_auth_response(&[5, 2]), Parsed::Invalid(ProtocolError::AuthFailed));
    assert_eq!(read_auth_response(&[4, 0]), Parsed::Invalid(ProtocolError::UnsupportedVersion));
}

#[test]
fn read_request_ipv4_step_by_step() {
    let bytes = [5u8, 1, 0, 1, 127, 0, 0, 1, 0, 80];
    let wanted: Vec<Parsed<LinkRequest>> = vec![
        Parsed::NeedMore(1),
        Parsed::NeedMore(1),
        Parsed::NeedMore(1),
        Parsed::NeedMore(1),
        Parsed::NeedMore(4),
        Parsed::NeedMore(3),
        Parsed::NeedMore(2),
        Parsed::NeedMore(1),
        Parsed::NeedMore(2),
        Parsed::NeedMore(1),
    ];
    for (j, w) in wanted.into_iter().enumerate() {
        assert_eq!(read_request(&bytes[..j]), w, "prefix of {} bytes", j);
    }
    assert_eq!(
        read_request(&bytes),
        Parsed::Done(LinkRequest { addr: LinkAddr::IPv4([127, 0, 0, 1]), port: 80 }, 10)
    );
}

#[test]
fn read_request_domain() {
    let bytes = [5u8, 1, 0, 3, 4, b'h', b'o', b's', b't', 0, 22];
    assert_eq!(read_request(&bytes[..5]), Parsed::NeedMore(4));
    assert_eq!(read_request(&bytes[..9]), Parsed::NeedMore(2));
    assert_eq!(
        read_request(&bytes),
        Parsed::Done(LinkRequest { addr: LinkAddr::Domain(b"host".to_vec()), port: 22 }, 11)
    );
}

#[test]
fn read_request_empty_domain() {
    let bytes = [5u8, 1, 0, 3, 0, 1, 0];
    assert_eq!(read_request(&bytes[..5]), Parsed::NeedMore(2));
    assert_eq!(
        read_request(&bytes),
        Parsed::Done(LinkRequest { addr: LinkAddr::Domain(vec![]), port: 256 }, 7)
    );
}

#[test]
fn read_request_refusals() {
    assert_eq!(read_request(&[4]), Parsed::Invalid(ProtocolError::UnsupportedVersion));
    assert_eq!(read_request(&[5, 2]), Parsed::Invalid(ProtocolError::UnsupportedCommand));
    assert_eq!(read_request(&[5, 3]), Parsed::Invalid(ProtocolError::UnsupportedCommand));
    assert_eq!(
        read_request(&[5, 1, 0, 4]),
        Parsed::Invalid(ProtocolError::UnsupportedAddressType)
    );
    assert_eq!(
        read_request(&[5, 1, 0, 2]),
        Parsed::Invalid(ProtocolError::UnsupportedAddressType)
    );
}

#[test]
fn request_roundtrip_ipv4_and_domain() {
    let reqs = vec![
        LinkRequest { addr: LinkAddr::IPv4([1, 2, 3, 4]), port: 65535 },
        LinkRequest { addr: LinkAddr::IPv4([0, 0, 0, 0]), port: 0 },
        LinkRequest { addr: LinkAddr::Domain(b"neutrino.example".to_vec()), port: 1080 },
        LinkRequest { addr: LinkAddr::Domain(vec![b'x'; 255]), port: 258 },
    ];
    for req in reqs {
        let mut out = Vec::new();
        assert_eq!(send_request(&mut out, req.clone()), Ok(()));
        let n = out.len();
        assert_eq!(read_request(&out), Parsed::Done(req.clone(), n));
        // Whatever follows a whole request does not change what is read.
        out.extend_from_slice(&[1, 2, 3]);
        assert_eq!(read_request(&out), Parsed::Done(req, n));
    }
}

#[test]
fn ipv6_request_is_written_but_refused_when_read() {
    let mut out = Vec::new();
    let req = LinkRequest { addr: LinkAddr::IPv6([0; 16]), port: 80 };
    assert_eq!(send_request(&mut out, req), Ok(()));
    assert_eq!(out.len(), 3 + 1 + 16 + 2);
    assert_eq!(read_request(&out), Parsed::Invalid(ProtocolError::UnsupportedAddressType));
}

#[test]
fn read_response_cases() {
    assert_eq!(read_response(&[]), Parsed::NeedMore(1));
    assert_eq!(read_response(&[4]), Parsed::Invalid(ProtocolError::IncorrectVersion));
    assert_eq!(read_response(&[5]), Parsed::NeedMore(2));
    assert_eq!(read_response(&[5, 0]), Parsed::NeedMore(1));
    assert_eq!(read_response(&[5, 0, 0]), Parsed::NeedMore(1));
    assert_eq!(
        read_response(&[5, 9, 0, 3, 2, b'o', b'k', 0, 1]),
        Parsed::Done(
            Reply { reptype: ReplyType::Unsupported, addr: LinkAddr::Domain(b"ok".to_vec()), port: 1 },
            9
        )
    );
}

#[test]
fn response_roundtrip() {
    for r in all_reply_types() {
        let mut out = Vec::new();
        send_response(&mut out, r);
        assert_eq!(
            read_response(&out),
            Parsed::Done(Reply { reptype: r, addr: LinkAddr::IPv4([0, 0, 0, 0]), port: 0 }, 10)
        );
    }
}

#[test]
fn greeting_roundtrip() {
    let mut out = Vec::new();
    send_option(&mut out);
    assert_eq!(read_options(&out), Parsed::Done(vec![0], 3));
    let mut out = Vec::new();
    send_auth_response(&mut out);
    assert_eq!(read_auth_response(&out), Parsed::Done((), 2));
}

#[test]
fn link_addr_read_cases() {
    assert_eq!(LinkAddr::read(&[]), Parsed::NeedMore(1));
    assert_eq!(LinkAddr::read(&[1, 8, 8]), Parsed::NeedMore(2));
    assert_eq!(LinkAddr::read(&[1, 8, 8, 4, 4, 99]), Parsed::Done(LinkAddr::IPv4([8, 8, 4, 4]), 5));
    assert_eq!(LinkAddr::read(&[3]), Parsed::NeedMore(1));
    assert_eq!(LinkAddr::read(&[3, 2, b'h']), Parsed::NeedMore(1));
    assert_eq!(LinkAddr::read(&[3, 2, b'h', b'i']), Parsed::Done(LinkAddr::Domain(b"hi".to_vec()), 4));
    assert_eq!(LinkAddr::read(&[4]), Parsed::Invalid(ProtocolError::UnsupportedAddressType));
}
