use vstd::prelude::*;

use crate::error::ProtocolError;

verus! {

/// A socket address: IPv4 octets and a port, or IPv6 octets, a port, the
/// flow information and the scope id.
#[derive(Debug, Clone, Copy, PartialEq, Eq)]
pub enum SocketAddress {
    V4 { ip: [u8; 4], port: u16 },
    V6 { ip: [u8; 16], port: u16, flowinfo: u32, scope_id: u32 },
}

/// The address of a link: what a request asks to be connected to.
///
/// Unlike a socket address it can name a host by its domain name.
#[derive(Debug, Clone, PartialEq, Eq)]
pub enum LinkAddr {
    IPv4([u8; 4]),
    IPv6([u8; 16]),
    Domain(Vec<u8>),
    Unknown(),
}

/// The mathematical value of a [`LinkAddr`]: every address as its bytes.
pub enum SpecLinkAddr {
    IPv4(Seq<u8>),
    IPv6(Seq<u8>),
    Domain(Seq<u8>),
    Unknown,
}

impl View for LinkAddr {
    type V = SpecLinkAddr;

    open spec fn view(&self) -> SpecLinkAddr {
        match self {
            LinkAddr::IPv4(ip) => SpecLinkAddr::IPv4(ip@),
            LinkAddr::IPv6(ip) => SpecLinkAddr::IPv6(ip@),
            LinkAddr::Domain(d) => SpecLinkAddr::Domain(d@),
            LinkAddr::Unknown() => SpecLinkAddr::Unknown,
        }
    }
}

/// A request to open a link to an address and port.
#[derive(Debug, Clone, PartialEq, Eq)]
pub struct LinkRequest {
    pub addr: LinkAddr,
    pub port: u16,
}

/// The mathematical value of a [`LinkRequest`].
pub struct SpecLinkRequest {
    pub addr: SpecLinkAddr,
    pub port: u16,
}

impl View for LinkRequest {
    type V = SpecLinkRequest;

    open spec fn view(&self) -> SpecLinkRequest {
        SpecLinkRequest { addr: self.addr@, port: self.port }
    }
}

/// The socket address that a link request names, or why it names none.
pub open spec fn spec_socket_addr_of(req: LinkRequest) -> Result<SocketAddress, ProtocolError> {
    match req.addr {
        LinkAddr::IPv4(ip) => Ok(SocketAddress::V4 { ip, port: req.port }),
        LinkAddr::IPv6(ip) => Ok(SocketAddress::V6 { ip, port: req.port, flowinfo: 0, scope_id: 0 }),
        LinkAddr::Domain(_) => Err(ProtocolError::DomainNotSupported),
        LinkAddr::Unknown() => Err(ProtocolError::UnknownAddress),
    }
}

/// The link request that asks for a socket address.
pub open spec fn spec_request_for(addr: SocketAddress) -> LinkRequest {
    match addr {
        SocketAddress::V4 { ip, port } => LinkRequest { addr: LinkAddr::IPv4(ip), port },
        SocketAddress::V6 { ip, port, .. } => LinkRequest { addr: LinkAddr::IPv6(ip), port },
    }
}

impl LinkRequest {
    /// Converts a link request to a socket address.
    ///
    /// Domain names are not resolved: a request for one is refused, and so
    /// is a request for an unknown address.
    pub fn as_socket_addr(&self) -> (res: Result<SocketAddress, ProtocolError>)
        ensures
            res == spec_socket_addr_of(*self),
    {
        match &self.addr {
            LinkAddr::IPv4(ip) => Ok(SocketAddress::V4 { ip: *ip, port: self.port }),
            LinkAddr::IPv6(ip) => Ok(SocketAddress::V6 { ip: *ip, port: self.port, flowinfo: 0, scope_id: 0 }),
            LinkAddr::Domain(_) => Err(ProtocolError::DomainNotSupported),
            LinkAddr::Unknown() => Err(ProtocolError::UnknownAddress),
        }
    }
}

impl From<SocketAddress> for LinkRequest {
    /// The link request that asks for the given socket address.
    fn from(addr: SocketAddress) -> (res: LinkRequest) {
        match addr {
            SocketAddress::V4 { ip, port } => LinkRequest { addr: LinkAddr::IPv4(ip), port },
            SocketAddress::V6 { ip, port, .. } => LinkRequest { addr: LinkAddr::IPv6(ip), port },
        }
    }
}

impl vstd::std_specs::convert::FromSpecImpl<SocketAddress> for LinkRequest {
    open spec fn obeys_from_spec() -> bool {
        true
    }

    open spec fn from_spec(addr: SocketAddress) -> LinkRequest {
        spec_request_for(addr)
    }
}

/// A socket address without IPv6 flow information or scope id.
pub open spec fn spec_unscoped(addr: SocketAddress) -> SocketAddress {
    match addr {
        SocketAddress::V4 { .. } => addr,
        SocketAddress::V6 { ip, port, .. } => SocketAddress::V6 { ip, port, flowinfo: 0, scope_id: 0 },
    }
}

/// Converting a socket address to a link request and back gives the same
/// socket address, but for IPv6 flow information and scope id: a link
/// request keeps neither, and they come back as 0.
pub proof fn lemma_socket_addr_roundtrip(addr: SocketAddress)
    ensures
        spec_socket_addr_of(spec_request_for(addr)) == Ok::<SocketAddress, ProtocolError>(
            spec_unscoped(addr),
        ),
        addr matches SocketAddress::V6 { flowinfo, scope_id, .. } ==> (flowinfo == 0 && scope_id
            == 0 ==> spec_unscoped(addr) == addr),
        addr is V4 ==> spec_unscoped(addr) == addr,
{
}

/// A request for an IPv4 or IPv6 address names that address and port (an
/// IPv6 one without flow information or scope id); a request for a domain
/// name or an unknown address names no socket address. A socket address
/// is asked for by a request for its address and port.
pub proof fn lemma_socket_addr_of(req: LinkRequest, addr: SocketAddress)
    ensures
        req.addr matches LinkAddr::IPv4(ip) ==> spec_socket_addr_of(req) == Ok::<
            SocketAddress,
            ProtocolError,
        >(SocketAddress::V4 { ip, port: req.port }),
        req.addr matches LinkAddr::IPv6(ip) ==> spec_socket_addr_of(req) == Ok::<
            SocketAddress,
            ProtocolError,
        >(SocketAddress::V6 { ip, port: req.port, flowinfo: 0, scope_id: 0 }),
        req.addr is Domain ==> spec_socket_addr_of(req) == Err::<SocketAddress, ProtocolError>(
            ProtocolError::DomainNotSupported,
        ),
        req.addr is Unknown ==> spec_socket_addr_of(req) == Err::<SocketAddress, ProtocolError>(
            ProtocolError::UnknownAddress,
        ),
        addr matches SocketAddress::V4 { ip, port } ==> spec_request_for(addr) == (LinkRequest {
            addr: LinkAddr::IPv4(ip),
            port,
        }),
        addr matches SocketAddress::V6 { ip, port, .. } ==> spec_request_for(addr) == (LinkRequest {
            addr: LinkAddr::IPv6(ip),
            port,
        }),
{
}

} // verus!
