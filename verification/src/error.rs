use vstd::prelude::*;

verus! {

/// Why a SOCKS5 exchange or a link address could not be handled.
#[derive(Debug, Clone, Copy, PartialEq, Eq, Structural)]
pub enum ProtocolError {
    /// A greeting, an auth reply or a request did not carry version 5.
    UnsupportedVersion,
    /// The server refused the (empty) authentication.
    AuthFailed,
    /// A request asked for something other than CONNECT.
    UnsupportedCommand,
    /// An address type other than IPv4 (1) or a domain name (3) was read.
    UnsupportedAddressType,
    /// A reply did not carry version 5.
    IncorrectVersion,
    /// A domain name longer than 255 bytes cannot be written.
    DomainTooLong,
    /// An unknown link address cannot be written.
    UnwritableAddress,
    /// A domain name cannot be turned into a socket address (no DNS lookup).
    DomainNotSupported,
    /// An unknown link address cannot be turned into a socket address.
    UnknownAddress,
}

} // verus!
