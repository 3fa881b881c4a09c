use vstd::prelude::*;

use crate::addr::{LinkAddr, LinkRequest, SpecLinkAddr, SpecLinkRequest};
use crate::error::ProtocolError;
use crate::socks5::{
    lemma_reply_code_roundtrip, spec_auth_response_bytes, spec_link_addr_bytes,
    spec_link_addr_write_error, spec_option_bytes, spec_parse_addr_port, spec_parse_auth_response,
    spec_parse_link_addr, spec_parse_options, spec_parse_request, spec_parse_response,
    spec_port_bytes, spec_request_bytes, spec_response_bytes, Parsed, ReplyType, SpecReply,
};

verus! {

/// Reading back a written CONNECT request gives the same request, for
/// every request that can be written and that names an IPv4 address or a
/// domain name.
pub proof fn lemma_request_roundtrip(req: LinkRequest)
    requires
        spec_link_addr_write_error(req.addr@) is None,
        !(req.addr is IPv6),
    ensures
        spec_parse_request(spec_request_bytes(req@)) == Parsed::Done(
            req@,
            spec_request_bytes(req@).len() as usize,
        ),
{
    let s = spec_request_bytes(req@);
    let rest = s.subrange(3, s.len() as int);
    assert(rest =~= spec_link_addr_bytes(req.addr@) + spec_port_bytes(req.port));
    match req.addr {
        LinkAddr::IPv4(ip) => {
            assert(rest.subrange(1, 5) =~= ip@);
        },
        LinkAddr::Domain(d) => {
            assert(rest.subrange(2, 2 + rest[1]) =~= d@);
        },
        _ => {},
    }
}

/// Reading back a written link address gives the same address, for every
/// address that can be written and that is an IPv4 address or a domain
/// name; a written IPv6 address is refused.
pub proof fn lemma_link_addr_roundtrip(addr: LinkAddr)
    requires
        spec_link_addr_write_error(addr@) is None,
    ensures
        !(addr is IPv6) ==> spec_parse_link_addr(spec_link_addr_bytes(addr@)) == Parsed::Done(
            addr@,
            spec_link_addr_bytes(addr@).len() as usize,
        ),
        addr is IPv6 ==> spec_parse_link_addr(spec_link_addr_bytes(addr@)) == Parsed::<
            SpecLinkAddr,
        >::Invalid(ProtocolError::UnsupportedAddressType),
{
    let s = spec_link_addr_bytes(addr@);
    match addr {
        LinkAddr::IPv4(ip) => {
            assert(s.subrange(1, 5) =~= ip@);
        },
        LinkAddr::Domain(d) => {
            assert(s.subrange(2, 2 + s[1]) =~= d@);
        },
        _ => {},
    }
}

/// A written CONNECT request for an IPv6 address is refused when it is
/// read back: the reader knows no address type but IPv4 and domain names.
pub proof fn lemma_ipv6_request_refused(req: LinkRequest)
    requires
        req.addr is IPv6,
    ensures
        spec_parse_request(spec_request_bytes(req@)) == Parsed::<crate::addr::SpecLinkRequest>::Invalid(
            ProtocolError::UnsupportedAddressType,
        ),
{
    let s = spec_request_bytes(req@);
    assert(s.subrange(3, s.len() as int)[0] == 4u8);
}

/// Reading back a written reply gives its reply type, the empty IPv4
/// address and port 0.
pub proof fn lemma_response_roundtrip(reptype: ReplyType)
    ensures
        spec_parse_response(spec_response_bytes(reptype)) == Parsed::Done(
            SpecReply {
                reptype,
                addr: SpecLinkAddr::IPv4(seq![0u8, 0u8, 0u8, 0u8]),
                port: 0,
            },
            10,
        ),
{
    let s = spec_response_bytes(reptype);
    assert(s.subrange(3, 10).subrange(1, 5) =~= seq![0u8, 0u8, 0u8, 0u8]);
    lemma_reply_code_roundtrip(reptype);
}

/// Reading back the written greeting gives the one method "no
/// authentication".
pub proof fn lemma_options_roundtrip()
    ensures
        spec_parse_options(spec_option_bytes()) == Parsed::Done(seq![0u8], 3),
{
    assert(spec_option_bytes().subrange(2, 3) =~= seq![0u8]);
}

/// Reading back the written choice of method accepts it.
pub proof fn lemma_auth_response_roundtrip()
    ensures
        spec_parse_auth_response(spec_auth_response_bytes()) == Parsed::Done((), 2),
{
}

/// A reader that has read a whole link address goes on to give the same
/// address however many bytes follow it, never claims more bytes than it
/// was given, and never asks for zero more bytes; a refusal stays a
/// refusal.
pub proof fn lemma_link_addr_prefix(s: Seq<u8>, t: Seq<u8>)
    ensures
        spec_parse_link_addr(s) matches Parsed::Done(_, k) ==> k <= s.len()
            && spec_parse_link_addr(s + t) == spec_parse_link_addr(s),
        spec_parse_link_addr(s) matches Parsed::NeedMore(n) ==> n > 0,
        spec_parse_link_addr(s) is Invalid ==> spec_parse_link_addr(s + t) == spec_parse_link_addr(s),
{
    if s.len() > 0 {
        assert((s + t)[0] == s[0]);
        if s.len() > 1 {
            assert((s + t)[1] == s[1]);
        }
        if s[0] == 1 && s.len() >= 5 {
            assert((s + t).subrange(1, 5) =~= s.subrange(1, 5));
        }
        if s[0] == 3 && s.len() >= 2 && s.len() >= 2 + s[1] {
            assert((s + t).subrange(2, 2 + s[1]) =~= s.subrange(2, 2 + s[1]));
        }
    }
}

proof fn lemma_addr_port_prefix(s: Seq<u8>, t: Seq<u8>, start: int)
    requires
        0 <= start <= s.len(),
    ensures
        spec_parse_addr_port(s, start) matches Parsed::Done(_, k) ==> k <= s.len()
            && spec_parse_addr_port(s + t, start) == spec_parse_addr_port(s, start),
        spec_parse_addr_port(s, start) matches Parsed::NeedMore(n) ==> n > 0,
        spec_parse_addr_port(s, start) is Invalid ==> spec_parse_addr_port(s + t, start)
            == spec_parse_addr_port(s, start),
{
    let a = s.subrange(start, s.len() as int);
    let b = (s + t).subrange(start, (s + t).len() as int);
    assert(b =~= a + t);
    lemma_link_addr_prefix(a, t);
    if let Parsed::Done(_, k) = spec_parse_link_addr(a) {
        if s.len() >= start + k + 2 {
            assert((s + t)[start + k] == s[start + k]);
            assert((s + t)[start + k + 1] == s[start + k + 1]);
        }
    }
}

/// A reader that has read a whole request goes on to give the same request
/// however many bytes follow it, never claims more bytes than it was given,
/// and never asks for zero more bytes; a refusal stays a refusal.
pub proof fn lemma_request_prefix(s: Seq<u8>, t: Seq<u8>)
    ensures
        spec_parse_request(s) matches Parsed::Done(_, k) ==> k <= s.len()
            && spec_parse_request(s + t) == spec_parse_request(s),
        spec_parse_request(s) matches Parsed::NeedMore(n) ==> n > 0,
        spec_parse_request(s) is Invalid ==> spec_parse_request(s + t) == spec_parse_request(s),
{
    if s.len() > 0 {
        assert((s + t)[0] == s[0]);
    }
    if s.len() > 1 {
        assert((s + t)[1] == s[1]);
    }
    if s.len() >= 3 {
        lemma_addr_port_prefix(s, t, 3);
    }
}

/// The same holds of reading a server's reply.
pub proof fn lemma_response_prefix(s: Seq<u8>, t: Seq<u8>)
    ensures
        spec_parse_response(s) matches Parsed::Done(_, k) ==> k <= s.len()
            && spec_parse_response(s + t) == spec_parse_response(s),
        spec_parse_response(s) matches Parsed::NeedMore(n) ==> n > 0,
        spec_parse_response(s) is Invalid ==> spec_parse_response(s + t) == spec_parse_response(s),
{
    if s.len() > 0 {
        assert((s + t)[0] == s[0]);
    }
    if s.len() > 1 {
        assert((s + t)[1] == s[1]);
    }
    if s.len() >= 3 {
        lemma_addr_port_prefix(s, t, 3);
    }
}

/// The same holds of reading a client's greeting.
pub proof fn lemma_options_prefix(s: Seq<u8>, t: Seq<u8>)
    ensures
        spec_parse_options(s) matches Parsed::Done(_, k) ==> k <= s.len()
            && spec_parse_options(s + t) == spec_parse_options(s),
        spec_parse_options(s) matches Parsed::NeedMore(n) ==> n > 0,
        spec_parse_options(s) is Invalid ==> spec_parse_options(s + t) == spec_parse_options(s),
{
    if s.len() > 0 {
        assert((s + t)[0] == s[0]);
    }
    if s.len() > 1 {
        assert((s + t)[1] == s[1]);
        if s.len() >= 2 + s[1] {
            assert((s + t).subrange(2, 2 + s[1]) =~= s.subrange(2, 2 + s[1]));
        }
    }
}

/// The same holds of reading a server's choice of method.
pub proof fn lemma_auth_response_prefix(s: Seq<u8>, t: Seq<u8>)
    ensures
        spec_parse_auth_response(s) matches Parsed::Done(_, k) ==> k <= s.len()
            && spec_parse_auth_response(s + t) == spec_parse_auth_response(s),
        spec_parse_auth_response(s) matches Parsed::NeedMore(n) ==> n > 0,
        spec_parse_auth_response(s) is Invalid ==> spec_parse_auth_response(s + t)
            == spec_parse_auth_response(s),
{
    if s.len() > 0 {
        assert((s + t)[0] == s[0]);
    }
    if s.len() > 1 {
        assert((s + t)[1] == s[1]);
    }
}

// ---------------------------------------------------------------------
// The byte format, byte by byte
// ---------------------------------------------------------------------
/// A reply with any reply code and any bound IPv4 address and port is
/// read as that reply code's type, those four octets in the order they
/// come, and the big-endian port.
pub proof fn lemma_read_ipv4_reply(code: u8, ip: Seq<u8>, hi: u8, lo: u8)
    requires
        ip.len() == 4,
    ensures
        spec_parse_response(seq![5u8, code, 0u8, 1u8] + ip + seq![hi, lo]) == Parsed::Done(
            SpecReply {
                reptype: ReplyType::spec_from_num(code),
                addr: SpecLinkAddr::IPv4(ip),
                port: (hi * 256 + lo) as u16,
            },
            10,
        ),
{
    let s = seq![5u8, code, 0u8, 1u8] + ip + seq![hi, lo];
    let rest = s.subrange(3, 10);
    assert(rest.subrange(1, 5) =~= ip);
    assert(s[8] == hi && s[9] == lo);
}

/// A reply with any reply code and a bound domain name and port is read as
/// that reply code's type, that name and the big-endian port.
pub proof fn lemma_read_domain_reply(code: u8, name: Seq<u8>, hi: u8, lo: u8)
    requires
        name.len() <= 255,
    ensures
        spec_parse_response(seq![5u8, code, 0u8, 3u8, name.len() as u8] + name + seq![hi, lo])
            == Parsed::Done(
            SpecReply {
                reptype: ReplyType::spec_from_num(code),
                addr: SpecLinkAddr::Domain(name),
                port: (hi * 256 + lo) as u16,
            },
            (7 + name.len()) as usize,
        ),
{
    let s = seq![5u8, code, 0u8, 3u8, name.len() as u8] + name + seq![hi, lo];
    let rest = s.subrange(3, s.len() as int);
    assert(rest[1] == name.len() as u8);
    assert(rest.subrange(2, 2 + name.len() as int) =~= name);
    assert(s[5 + name.len() as int] == hi && s[6 + name.len() as int] == lo);
}

/// A CONNECT request for any IPv4 address and port is read as those four
/// octets in the order they come and the big-endian port.
pub proof fn lemma_read_ipv4_request(ip: Seq<u8>, hi: u8, lo: u8)
    requires
        ip.len() == 4,
    ensures
        spec_parse_request(seq![5u8, 1u8, 0u8, 1u8] + ip + seq![hi, lo]) == Parsed::Done(
            SpecLinkRequest { addr: SpecLinkAddr::IPv4(ip), port: (hi * 256 + lo) as u16 },
            10,
        ),
{
    let s = seq![5u8, 1u8, 0u8, 1u8] + ip + seq![hi, lo];
    let rest = s.subrange(3, 10);
    assert(rest.subrange(1, 5) =~= ip);
    assert(s[8] == hi && s[9] == lo);
}

/// A CONNECT request for any domain name and port is read as that name and
/// the big-endian port.
pub proof fn lemma_read_domain_request(name: Seq<u8>, hi: u8, lo: u8)
    requires
        name.len() <= 255,
    ensures
        spec_parse_request(seq![5u8, 1u8, 0u8, 3u8, name.len() as u8] + name + seq![hi, lo])
            == Parsed::Done(
            SpecLinkRequest { addr: SpecLinkAddr::Domain(name), port: (hi * 256 + lo) as u16 },
            (7 + name.len()) as usize,
        ),
{
    let s = seq![5u8, 1u8, 0u8, 3u8, name.len() as u8] + name + seq![hi, lo];
    let rest = s.subrange(3, s.len() as int);
    assert(rest[1] == name.len() as u8);
    assert(rest.subrange(2, 2 + name.len() as int) =~= name);
    assert(s[5 + name.len() as int] == hi && s[6 + name.len() as int] == lo);
}

/// Reading a request, a reply or a greeting refuses a first byte other
/// than 5; reading a request refuses a command other than 1; reading an
/// address refuses a type other than 1 and 3.
pub proof fn lemma_read_refusals(s: Seq<u8>)
    ensures
        s.len() >= 1 && s[0] != 5 ==> spec_parse_request(s) == Parsed::<SpecLinkRequest>::Invalid(
            ProtocolError::UnsupportedVersion,
        ) && spec_parse_response(s) == Parsed::<SpecReply>::Invalid(ProtocolError::IncorrectVersion)
            && spec_parse_options(s) == Parsed::<Seq<u8>>::Invalid(ProtocolError::UnsupportedVersion)
            && spec_parse_auth_response(s) == Parsed::<()>::Invalid(ProtocolError::UnsupportedVersion),
        s.len() >= 2 && s[0] == 5 && s[1] != 1 ==> spec_parse_request(s) == Parsed::<
            SpecLinkRequest,
        >::Invalid(ProtocolError::UnsupportedCommand),
        s.len() >= 2 && s[0] == 5 && s[1] != 0 ==> spec_parse_auth_response(s) == Parsed::<
            ()>::Invalid(ProtocolError::AuthFailed),
        s.len() >= 4 && s[0] == 5 && s[1] == 1 && s[3] != 1 && s[3] != 3 ==> spec_parse_request(s)
            == Parsed::<SpecLinkRequest>::Invalid(ProtocolError::UnsupportedAddressType),
        s.len() >= 4 && s[0] == 5 && s[3] != 1 && s[3] != 3 ==> spec_parse_response(s) == Parsed::<
            SpecReply,
        >::Invalid(ProtocolError::UnsupportedAddressType),
{
    if s.len() >= 4 {
        assert(s.subrange(3, s.len() as int)[0] == s[3]);
    }
}

/// A CONNECT request is written as version 5, command 1, reserved 0, the
/// address type (1 for IPv4, 4 for IPv6, 3 and the length for a domain
/// name), the address bytes in their order, and the port, high byte
/// first.
pub proof fn lemma_request_bytes(req: LinkRequest)
    ensures
        req.addr matches LinkAddr::IPv4(ip) ==> spec_request_bytes(req@) == seq![5u8, 1u8, 0u8, 1u8]
            + ip@ + seq![(req.port / 256) as u8, (req.port % 256) as u8],
        req.addr matches LinkAddr::IPv6(ip) ==> spec_request_bytes(req@) == seq![5u8, 1u8, 0u8, 4u8]
            + ip@ + seq![(req.port / 256) as u8, (req.port % 256) as u8],
        req.addr matches LinkAddr::Domain(d) ==> spec_request_bytes(req@) == seq![
            5u8,
            1u8,
            0u8,
            3u8,
            d@.len() as u8,
        ] + d@ + seq![(req.port / 256) as u8, (req.port % 256) as u8],
        req.port == ((req.port / 256) as u8) * 256 + ((req.port % 256) as u8),
{
    match req.addr {
        LinkAddr::IPv4(ip) => {
            assert(spec_request_bytes(req@) =~= seq![5u8, 1u8, 0u8, 1u8] + ip@ + seq![
                (req.port / 256) as u8,
                (req.port % 256) as u8,
            ]);
        },
        LinkAddr::IPv6(ip) => {
            assert(spec_request_bytes(req@) =~= seq![5u8, 1u8, 0u8, 4u8] + ip@ + seq![
                (req.port / 256) as u8,
                (req.port % 256) as u8,
            ]);
        },
        LinkAddr::Domain(d) => {
            assert(spec_request_bytes(req@) =~= seq![5u8, 1u8, 0u8, 3u8, d@.len() as u8] + d@
                + seq![(req.port / 256) as u8, (req.port % 256) as u8]);
        },
        _ => {},
    }
}

/// A reply type is written with its SOCKS5 reply code: 0 succeeded,
/// 1 general failure, 2 network unreachable, 3 connection refused, 4 TTL
/// expired, 5 address type not supported, 6 for anything unsupported; and
/// the reply reports the empty IPv4 address and port 0.
pub proof fn lemma_reply_codes(reptype: ReplyType)
    ensures
        reptype.spec_to_num() == match reptype {
            ReplyType::Succeeded => 0u8,
            ReplyType::GeneralFailure => 1u8,
            ReplyType::Unreachable => 2u8,
            ReplyType::Refused => 3u8,
            ReplyType::TTLExpired => 4u8,
            ReplyType::AddressNotSupported => 5u8,
            ReplyType::Unsupported => 6u8,
        },
        spec_response_bytes(reptype) == seq![5u8, reptype.spec_to_num(), 0u8, 1u8] + seq![
            0u8,
            0u8,
            0u8,
            0u8,
        ] + seq![0u8, 0u8],
{
    assert(spec_response_bytes(reptype) =~= seq![5u8, reptype.spec_to_num(), 0u8, 1u8] + seq![
        0u8,
        0u8,
        0u8,
        0u8,
    ] + seq![0u8, 0u8]);
}

/// A link address cannot be written exactly when it is a domain name of
/// more than 255 bytes or an unknown address.
pub proof fn lemma_link_addr_write_errors(addr: LinkAddr)
    ensures
        spec_link_addr_write_error(addr@) == Some(ProtocolError::DomainTooLong) <==> (
        addr matches LinkAddr::Domain(d) && d@.len() > 255),
        spec_link_addr_write_error(addr@) == Some(ProtocolError::UnwritableAddress) <==> addr is Unknown,
        spec_link_addr_write_error(addr@) is None <==> (addr is IPv4 || addr is IPv6 || (
        addr matches LinkAddr::Domain(d) && d@.len() <= 255)),
{
}

/// A greeting offering any list of methods is read as that list; every
/// shorter prefix of it asks for more bytes without reaching past its end.
pub proof fn lemma_read_options(methods: Seq<u8>, j: int)
    requires
        methods.len() <= 255,
        0 <= j < 2 + methods.len(),
    ensures
        spec_parse_options(seq![5u8, methods.len() as u8] + methods) == Parsed::Done(
            methods,
            (2 + methods.len()) as usize,
        ),
        spec_parse_options((seq![5u8, methods.len() as u8] + methods).take(j)) matches Parsed::NeedMore(
            n,
        ) && 0 < n && j + n <= 2 + methods.len(),
{
    let s = seq![5u8, methods.len() as u8] + methods;
    assert(s[1] == methods.len() as u8);
    assert(s.subrange(2, 2 + methods.len() as int) =~= methods);
    let t = s.take(j);
    if j >= 1 {
        assert(t[0] == 5u8);
    }
    if j >= 2 {
        assert(t[1] == methods.len() as u8);
    }
}

} // verus!
