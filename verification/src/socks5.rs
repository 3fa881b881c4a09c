use vstd::prelude::*;

use crate::addr::{LinkAddr, LinkRequest, SpecLinkAddr, SpecLinkRequest};
use crate::error::ProtocolError;

verus! {

/// The outcome of a connection, as a SOCKS5 server reports it.
#[derive(Debug, Clone, Copy, PartialEq, Eq, Structural)]
pub enum ReplyType {
    Succeeded,
    GeneralFailure,
    Unreachable,
    Refused,
    TTLExpired,
    AddressNotSupported,
    Unsupported,
}

impl ReplyType {
    /// The reply type that a reply code stands for; every code above 5
    /// stands for `Unsupported`.
    pub open spec fn spec_from_num(num: u8) -> ReplyType {
        if num == 0 {
            ReplyType::Succeeded
        } else if num == 1 {
            ReplyType::GeneralFailure
        } else if num == 2 {
            ReplyType::Unreachable
        } else if num == 3 {
            ReplyType::Refused
        } else if num == 4 {
            ReplyType::TTLExpired
        } else if num == 5 {
            ReplyType::AddressNotSupported
        } else {
            ReplyType::Unsupported
        }
    }

    /// The reply code written for a reply type.
    pub open spec fn spec_to_num(self) -> u8 {
        match self {
            ReplyType::Succeeded => 0,
            ReplyType::GeneralFailure => 1,
            ReplyType::Unreachable => 2,
            ReplyType::Refused => 3,
            ReplyType::TTLExpired => 4,
            ReplyType::AddressNotSupported => 5,
            ReplyType::Unsupported => 6,
        }
    }

    /// Decodes a reply code.
    pub fn from_num(num: u8) -> (res: ReplyType)
        ensures
            res == Self::spec_from_num(num),
    {
        match num {
            0 => ReplyType::Succeeded,
            1 => ReplyType::GeneralFailure,
            2 => ReplyType::Unreachable,
            3 => ReplyType::Refused,
            4 => ReplyType::TTLExpired,
            5 => ReplyType::AddressNotSupported,
            _ => ReplyType::Unsupported,
        }
    }

    /// Encodes a reply type as its reply code.
    pub fn to_num(&self) -> (res: u8)
        ensures
            res == self.spec_to_num(),
    {
        match self {
            ReplyType::Succeeded => 0,
            ReplyType::GeneralFailure => 1,
            ReplyType::Unreachable => 2,
            ReplyType::Refused => 3,
            ReplyType::TTLExpired => 4,
            ReplyType::AddressNotSupported => 5,
            ReplyType::Unsupported => 6,
        }
    }

    /// The reply that a server sends once the output chain has (or has not)
    /// opened the requested connection.
    pub fn for_connection(connected: bool) -> (res: ReplyType)
        ensures
            res == (if connected { ReplyType::Succeeded } else { ReplyType::GeneralFailure }),
    {
        if connected {
            ReplyType::Succeeded
        } else {
            ReplyType::GeneralFailure
        }
    }
}

/// Decoding a reply type's code gives the reply type back.
pub proof fn lemma_reply_code_roundtrip(reply: ReplyType)
    ensures
        ReplyType::spec_from_num(reply.spec_to_num()) == reply,
{
}

/// Encoding a decoded reply code gives the code back for the codes 0 to 6;
/// every higher code comes back as 6.
pub proof fn lemma_reply_code_saturates(num: u8)
    ensures
        ReplyType::spec_from_num(num).spec_to_num() == (if num <= 6 { num } else { 6u8 }),
{
}

/// A server's reply to a request: how the connection went and the address
/// that the server bound.
#[derive(Debug, Clone, PartialEq, Eq)]
pub struct Reply {
    pub reptype: ReplyType,
    pub addr: LinkAddr,
    pub port: u16,
}

/// The mathematical value of a [`Reply`].
pub struct SpecReply {
    pub reptype: ReplyType,
    pub addr: SpecLinkAddr,
    pub port: u16,
}

impl View for Reply {
    type V = SpecReply;

    open spec fn view(&self) -> SpecReply {
        SpecReply { reptype: self.reptype, addr: self.addr@, port: self.port }
    }
}

/// What a parser makes of the bytes received so far.
#[derive(Debug, Clone, PartialEq, Eq)]
pub enum Parsed<T> {
    /// A whole message was read: its value and how many bytes it took.
    Done(T, usize),
    /// The bytes end before the next point where the message can be
    /// checked; that point lies this many bytes further.
    NeedMore(usize),
    /// The bytes can never start a valid message.
    Invalid(ProtocolError),
}

impl<T: View> View for Parsed<T> {
    type V = Parsed<T::V>;

    open spec fn view(&self) -> Parsed<T::V> {
        match self {
            Parsed::Done(v, n) => Parsed::Done(v@, *n),
            Parsed::NeedMore(n) => Parsed::NeedMore(*n),
            Parsed::Invalid(e) => Parsed::Invalid(*e),
        }
    }
}

// ---------------------------------------------------------------------
// The byte format
// ---------------------------------------------------------------------
/// A big-endian 16-bit number from two bytes.
pub open spec fn spec_be16(hi: u8, lo: u8) -> u16 {
    (hi * 256 + lo) as u16
}

/// A port as two big-endian bytes.
pub open spec fn spec_port_bytes(port: u16) -> Seq<u8> {
    seq![(port / 256) as u8, (port % 256) as u8]
}

/// Why a link address cannot be written, if it cannot.
pub open spec fn spec_link_addr_write_error(addr: SpecLinkAddr) -> Option<ProtocolError> {
    match addr {
        SpecLinkAddr::Domain(d) => if d.len() > 255 {
            Some(ProtocolError::DomainTooLong)
        } else {
            None
        },
        SpecLinkAddr::Unknown => Some(ProtocolError::UnwritableAddress),
        _ => None,
    }
}

/// The bytes of a link address: its type (1 for IPv4, 4 for IPv6, 3 for
/// a domain name), then the address; a domain name comes with its length.
pub open spec fn spec_link_addr_bytes(addr: SpecLinkAddr) -> Seq<u8> {
    match addr {
        SpecLinkAddr::IPv4(ip) => seq![1u8] + ip,
        SpecLinkAddr::IPv6(ip) => seq![4u8] + ip,
        SpecLinkAddr::Domain(d) => seq![3u8, d.len() as u8] + d,
        SpecLinkAddr::Unknown => Seq::empty(),
    }
}

/// The client's greeting: version 5, one method, "no authentication".
pub open spec fn spec_option_bytes() -> Seq<u8> {
    seq![5u8, 1u8, 0u8]
}

/// The server's choice of method: version 5, "no authentication".
pub open spec fn spec_auth_response_bytes() -> Seq<u8> {
    seq![5u8, 0u8]
}

/// The header of a CONNECT request: version 5, command 1, reserved 0.
pub open spec fn spec_request_header() -> Seq<u8> {
    seq![5u8, 1u8, 0u8]
}

/// The bytes of a CONNECT request.
pub open spec fn spec_request_bytes(req: SpecLinkRequest) -> Seq<u8> {
    spec_request_header() + spec_link_addr_bytes(req.addr) + spec_port_bytes(req.port)
}

/// The bytes of a server's reply: version 5, the reply code, reserved 0,
/// and the empty IPv4 address 0.0.0.0 with port 0.
pub open spec fn spec_response_bytes(reply: ReplyType) -> Seq<u8> {
    seq![5u8, reply.spec_to_num(), 0u8, 1u8, 0u8, 0u8, 0u8, 0u8, 0u8, 0u8]
}

/// Reads a link address from the start of `s`.
pub open spec fn spec_parse_link_addr(s: Seq<u8>) -> Parsed<SpecLinkAddr> {
    if s.len() == 0 {
        Parsed::NeedMore(1)
    } else if s[0] == 1 {
        if s.len() < 5 {
            Parsed::NeedMore((5 - s.len()) as usize)
        } else {
            Parsed::Done(SpecLinkAddr::IPv4(s.subrange(1, 5)), 5)
        }
    } else if s[0] == 3 {
        if s.len() < 2 {
            Parsed::NeedMore(1)
        } else if s.len() < 2 + s[1] {
            Parsed::NeedMore((2 + s[1] - s.len()) as usize)
        } else {
            Parsed::Done(SpecLinkAddr::Domain(s.subrange(2, 2 + s[1])), (2 + s[1]) as usize)
        }
    } else {
        Parsed::Invalid(ProtocolError::UnsupportedAddressType)
    }
}

/// Reads a link address at `start` and a port after it, both parts of a
/// message that starts at 0.
pub open spec fn spec_parse_addr_port(s: Seq<u8>, start: int) -> Parsed<(SpecLinkAddr, u16)> {
    match spec_parse_link_addr(s.subrange(start, s.len() as int)) {
        Parsed::Done(addr, k) => {
            let end = start + k + 2;
            if s.len() < end {
                Parsed::NeedMore((end - s.len()) as usize)
            } else {
                Parsed::Done((addr, spec_be16(s[start + k], s[start + k + 1])), end as usize)
            }
        },
        Parsed::NeedMore(n) => Parsed::NeedMore(n),
        Parsed::Invalid(e) => Parsed::Invalid(e),
    }
}

/// Reads the client's greeting: version 5, a count, that many methods.
pub open spec fn spec_parse_options(s: Seq<u8>) -> Parsed<Seq<u8>> {
    if s.len() == 0 {
        Parsed::NeedMore(1)
    } else if s[0] != 5 {
        Parsed::Invalid(ProtocolError::UnsupportedVersion)
    } else if s.len() < 2 {
        Parsed::NeedMore(1)
    } else if s.len() < 2 + s[1] {
        Parsed::NeedMore((2 + s[1] - s.len()) as usize)
    } else {
        Parsed::Done(s.subrange(2, 2 + s[1]), (2 + s[1]) as usize)
    }
}

/// Reads the server's choice of method: version 5, then 0 for "no
/// authentication".
pub open spec fn spec_parse_auth_response(s: Seq<u8>) -> Parsed<()> {
    if s.len() == 0 {
        Parsed::NeedMore(1)
    } else if s[0] != 5 {
        Parsed::Invalid(ProtocolError::UnsupportedVersion)
    } else if s.len() < 2 {
        Parsed::NeedMore(1)
    } else if s[1] != 0 {
        Parsed::Invalid(ProtocolError::AuthFailed)
    } else {
        Parsed::Done((), 2)
    }
}

/// Reads a CONNECT request: version 5, command 1, a reserved byte, the
/// address and the port.
pub open spec fn spec_parse_request(s: Seq<u8>) -> Parsed<SpecLinkRequest> {
    if s.len() == 0 {
        Parsed::NeedMore(1)
    } else if s[0] != 5 {
        Parsed::Invalid(ProtocolError::UnsupportedVersion)
    } else if s.len() < 2 {
        Parsed::NeedMore(1)
    } else if s[1] != 1 {
        Parsed::Invalid(ProtocolError::UnsupportedCommand)
    } else if s.len() < 3 {
        Parsed::NeedMore(1)
    } else {
        match spec_parse_addr_port(s, 3) {
            Parsed::Done((addr, port), n) => Parsed::Done(SpecLinkRequest { addr, port }, n),
            Parsed::NeedMore(n) => Parsed::NeedMore(n),
            Parsed::Invalid(e) => Parsed::Invalid(e),
        }
    }
}

/// Reads a server's reply: version 5, the reply code, a reserved byte,
/// the bound address and port.
pub open spec fn spec_parse_response(s: Seq<u8>) -> Parsed<SpecReply> {
    if s.len() == 0 {
        Parsed::NeedMore(1)
    } else if s[0] != 5 {
        Parsed::Invalid(ProtocolError::IncorrectVersion)
    } else if s.len() < 3 {
        Parsed::NeedMore((3 - s.len()) as usize)
    } else {
        match spec_parse_addr_port(s, 3) {
            Parsed::Done((addr, port), n) => Parsed::Done(
                SpecReply { reptype: ReplyType::spec_from_num(s[1]), addr, port },
                n,
            ),
            Parsed::NeedMore(n) => Parsed::NeedMore(n),
            Parsed::Invalid(e) => Parsed::Invalid(e),
        }
    }
}

// ---------------------------------------------------------------------
// Writing
// ---------------------------------------------------------------------
/// Appends bytes to an output buffer.
pub(crate) fn push_all(output: &mut Vec<u8>, bytes: &[u8])
    ensures
        final(output)@ == old(output)@ + bytes@,
{
    let mut i: usize = 0;
    while i < bytes.len()
        invariant
            i <= bytes@.len(),
            output@ == old(output)@ + bytes@.subrange(0, i as int),
        decreases bytes@.len() - i,
    {
        output.push(bytes[i]);
        i = i + 1;
        assert(output@ =~= old(output)@ + bytes@.subrange(0, i as int));
    }
    assert(bytes@.subrange(0, bytes@.len() as int) =~= bytes@);
}

/// Appends a port as two big-endian bytes.
fn push_port(output: &mut Vec<u8>, port: u16)
    ensures
        final(output)@ == old(output)@ + spec_port_bytes(port),
{
    output.push((port / 256) as u8);
    output.push((port % 256) as u8);
    assert(output@ =~= old(output)@ + spec_port_bytes(port));
}

impl LinkAddr {
    /// Writes the link address: its type byte, then the address.
    ///
    /// A domain name longer than 255 bytes and an unknown address are
    /// refused, and nothing is written.
    pub fn write(&self, output: &mut Vec<u8>) -> (res: Result<(), ProtocolError>)
        ensures
            match spec_link_addr_write_error(self@) {
                Some(e) => res == Err::<(), ProtocolError>(e) && final(output)@ == old(output)@,
                None => res is Ok && final(output)@ == old(output)@ + spec_link_addr_bytes(self@),
            },
    {
        match self {
            LinkAddr::IPv4(ip) => {
                output.push(1);
                push_all(output, ip.as_slice());
                assert(output@ =~= old(output)@ + spec_link_addr_bytes(self@));
            },
            LinkAddr::IPv6(ip) => {
                output.push(4);
                push_all(output, ip.as_slice());
                assert(output@ =~= old(output)@ + spec_link_addr_bytes(self@));
            },
            LinkAddr::Domain(domain) => {
                if domain.len() > 255 {
                    return Err(ProtocolError::DomainTooLong);
                }
                output.push(3);
                output.push(domain.len() as u8);
                push_all(output, domain.as_slice());
                assert(output@ =~= old(output)@ + spec_link_addr_bytes(self@));
            },
            LinkAddr::Unknown() => {
                return Err(ProtocolError::UnwritableAddress);
            },
        }
        Ok(())
    }
}

/// Writes the client's greeting, offering only "no authentication".
pub fn send_option(output: &mut Vec<u8>)
    ensures
        final(output)@ == old(output)@ + spec_option_bytes(),
{
    output.push(5);
    output.push(1);
    output.push(0);
    assert(output@ =~= old(output)@ + spec_option_bytes());
}

/// Writes the server's choice of "no authentication".
pub fn send_auth_response(output: &mut Vec<u8>)
    ensures
        final(output)@ == old(output)@ + spec_auth_response_bytes(),
{
    output.push(5);
    output.push(0);
    assert(output@ =~= old(output)@ + spec_auth_response_bytes());
}

/// Writes a CONNECT request.
///
/// Where the address cannot be written, the request header has been
/// written already when the error comes back.
pub fn send_request(output: &mut Vec<u8>, req: LinkRequest) -> (res: Result<(), ProtocolError>)
    ensures
        match spec_link_addr_write_error(req.addr@) {
            Some(e) => res == Err::<(), ProtocolError>(e) && final(output)@ == old(output)@
                + spec_request_header(),
            None => res is Ok && final(output)@ == old(output)@ + spec_request_bytes(req@),
        },
{
    output.push(5);
    output.push(1);
    output.push(0);
    assert(output@ =~= old(output)@ + spec_request_header());
    match req.addr.write(output) {
        Ok(()) => {},
        Err(e) => {
            return Err(e);
        },
    }
    push_port(output, req.port);
    assert(output@ =~= old(output)@ + spec_request_bytes(req@));
    Ok(())
}

/// Writes a server's reply with the given reply type and an empty bound
/// address.
pub fn send_response(output: &mut Vec<u8>, reptype: ReplyType)
    ensures
        final(output)@ == old(output)@ + spec_response_bytes(reptype),
{
    output.push(5);
    output.push(reptype.to_num());
    output.push(0);
    output.push(1);
    output.push(0);
    output.push(0);
    output.push(0);
    output.push(0);
    output.push(0);
    output.push(0);
    assert(output@ =~= old(output)@ + spec_response_bytes(reptype));
}

// ---------------------------------------------------------------------
// Reading
// ---------------------------------------------------------------------
/// Copies `input[from..to]`.
fn copy_range(input: &[u8], from: usize, to: usize) -> (res: Vec<u8>)
    requires
        from <= to <= input@.len(),
    ensures
        res@ == input@.subrange(from as int, to as int),
{
    let mut res: Vec<u8> = Vec::new();
    let mut i: usize = from;
    while i < to
        invariant
            from <= i <= to <= input@.len(),
            res@ == input@.subrange(from as int, i as int),
        decreases to - i,
    {
        res.push(input[i]);
        i = i + 1;
        assert(res@ =~= input@.subrange(from as int, i as int));
    }
    res
}

/// Reads a link address that starts at `start`.
fn parse_link_addr_at(input: &[u8], start: usize) -> (res: Parsed<LinkAddr>)
    requires
        start <= input@.len(),
    ensures
        res@ == spec_parse_link_addr(input@.subrange(start as int, input@.len() as int)),
{
    let ghost s = input@.subrange(start as int, input@.len() as int);
    let avail: usize = input.len() - start;
    if avail == 0 {
        return Parsed::NeedMore(1);
    }
    let addr_type: u8 = input[start];
    if addr_type == 1 {
        if avail < 5 {
            Parsed::NeedMore(5 - avail)
        } else {
            let ip: [u8; 4] = [
                input[start + 1],
                input[start + 2],
                input[start + 3],
                input[start + 4],
            ];
            assert(ip@ =~= s.subrange(1, 5));
            Parsed::Done(LinkAddr::IPv4(ip), 5)
        }
    } else if addr_type == 3 {
        if avail < 2 {
            Parsed::NeedMore(1)
        } else {
            let size: usize = input[start + 1] as usize;
            if avail < 2 + size {
                Parsed::NeedMore(2 + size - avail)
            } else {
                let domain = copy_range(input, start + 2, start + 2 + size);
                assert(domain@ =~= s.subrange(2, 2 + s[1]));
                Parsed::Done(LinkAddr::Domain(domain), 2 + size)
            }
        }
    } else {
        Parsed::Invalid(ProtocolError::UnsupportedAddressType)
    }
}

impl LinkAddr {
    /// Reads a link address: its type byte, then the address.
    ///
    /// Only IPv4 addresses (type 1) and domain names (type 3) are known.
    pub fn read(input: &[u8]) -> (res: Parsed<LinkAddr>)
        ensures
            res@ == spec_parse_link_addr(input@),
    {
        assert(input@.subrange(0, input@.len() as int) =~= input@);
        parse_link_addr_at(input, 0)
    }
}

/// Reads a link address at `start` and the port after it.
fn parse_addr_port(input: &[u8], start: usize) -> (res: Parsed<(LinkAddr, u16)>)
    requires
        start <= input@.len(),
        start <= 3,
    ensures
        res@ == spec_parse_addr_port(input@, start as int),
{
    match parse_link_addr_at(input, start) {
        Parsed::Done(addr, k) => {
            let avail: usize = input.len() - start;
            if avail < k + 2 {
                Parsed::NeedMore(k + 2 - avail)
            } else {
                let hi: u8 = input[start + k];
                let lo: u8 = input[start + k + 1];
                let port: u16 = (hi as u16) * 256 + (lo as u16);
                Parsed::Done((addr, port), start + k + 2)
            }
        },
        Parsed::NeedMore(n) => Parsed::NeedMore(n),
        Parsed::Invalid(e) => Parsed::Invalid(e),
    }
}

/// Reads the client's greeting (server side): the methods it offers.
pub fn read_options(input: &[u8]) -> (res: Parsed<Vec<u8>>)
    ensures
        res@ == spec_parse_options(input@),
{
    if input.len() == 0 {
        return Parsed::NeedMore(1);
    }
    if input[0] != 5 {
        return Parsed::Invalid(ProtocolError::UnsupportedVersion);
    }
    if input.len() < 2 {
        return Parsed::NeedMore(1);
    }
    let count: usize = input[1] as usize;
    if input.len() < 2 + count {
        return Parsed::NeedMore(2 + count - input.len());
    }
    let options = copy_range(input, 2, 2 + count);
    Parsed::Done(options, 2 + count)
}

/// Reads the server's choice of method (client side).
pub fn read_auth_response(input: &[u8]) -> (res: Parsed<()>)
    ensures
        res@ == spec_parse_auth_response(input@),
{
    if input.len() == 0 {
        return Parsed::NeedMore(1);
    }
    if input[0] != 5 {
        return Parsed::Invalid(ProtocolError::UnsupportedVersion);
    }
    if input.len() < 2 {
        return Parsed::NeedMore(1);
    }
    if input[1] != 0 {
        return Parsed::Invalid(ProtocolError::AuthFailed);
    }
    Parsed::Done((), 2)
}

/// Reads a CONNECT request (server side).
pub fn read_request(input: &[u8]) -> (res: Parsed<LinkRequest>)
    ensures
        res@ == spec_parse_request(input@),
{
    if input.len() == 0 {
        return Parsed::NeedMore(1);
    }
    if input[0] != 5 {
        return Parsed::Invalid(ProtocolError::UnsupportedVersion);
    }
    if input.len() < 2 {
        return Parsed::NeedMore(1);
    }
    if input[1] != 1 {
        return Parsed::Invalid(ProtocolError::UnsupportedCommand);
    }
    if input.len() < 3 {
        return Parsed::NeedMore(1);
    }
    match parse_addr_port(input, 3) {
        Parsed::Done((addr, port), n) => Parsed::Done(LinkRequest { addr, port }, n),
        Parsed::NeedMore(n) => Parsed::NeedMore(n),
        Parsed::Invalid(e) => Parsed::Invalid(e),
    }
}

/// Reads a server's reply (client side).
pub fn read_response(input: &[u8]) -> (res: Parsed<Reply>)
    ensures
        res@ == spec_parse_response(input@),
{
    if input.len() == 0 {
        return Parsed::NeedMore(1);
    }
    if input[0] != 5 {
        return Parsed::Invalid(ProtocolError::IncorrectVersion);
    }
    if input.len() < 3 {
        return Parsed::NeedMore(3 - input.len());
    }
    let reptype = ReplyType::from_num(input[1]);
    match parse_addr_port(input, 3) {
        Parsed::Done((addr, port), n) => Parsed::Done(Reply { reptype, addr, port }, n),
        Parsed::NeedMore(n) => Parsed::NeedMore(n),
        Parsed::Invalid(e) => Parsed::Invalid(e),
    }
}

} // verus!
