use vstd::prelude::*;

use crate::addr::{LinkRequest, SpecLinkRequest};
use crate::error::ProtocolError;
use crate::socks5::{
    push_all, read_auth_response, read_options, read_request, read_response, send_auth_response,
    send_option, send_request, spec_auth_response_bytes, spec_link_addr_write_error,
    spec_option_bytes, spec_parse_auth_response, spec_parse_options, spec_parse_request,
    spec_parse_response, spec_request_bytes, spec_request_header, Parsed, Reply, SpecReply,
};

verus! {

/// What a handshake asks of the connection next.
#[derive(Debug, Clone, PartialEq, Eq)]
pub enum Action<T> {
    /// Write these bytes, then step again with no input.
    Send(Vec<u8>),
    /// Read exactly this many bytes, then step again with them.
    Receive(usize),
    /// The handshake is over, with this outcome.
    Finished(T),
    /// The handshake failed.
    Failed(ProtocolError),
}

/// The mathematical value of an [`Action`].
pub enum SpecAction<T> {
    Send(Seq<u8>),
    Receive(usize),
    Finished(T),
    Failed(ProtocolError),
}

impl<T: View> View for Action<T> {
    type V = SpecAction<T::V>;

    open spec fn view(&self) -> SpecAction<T::V> {
        match self {
            Action::Send(b) => SpecAction::Send(b@),
            Action::Receive(n) => SpecAction::Receive(*n),
            Action::Finished(v) => SpecAction::Finished(v@),
            Action::Failed(e) => SpecAction::Failed(*e),
        }
    }
}

// ---------------------------------------------------------------------
// Client side
// ---------------------------------------------------------------------
/// Where a SOCKS5 client stands in its handshake.
#[derive(Debug, Clone, Copy, PartialEq, Eq, Structural)]
pub enum ClientPhase {
    /// Nothing sent yet.
    Start,
    /// The greeting is being sent.
    OptionsSent,
    /// Waiting for the server's choice of method.
    AwaitAuth,
    /// The request is being sent.
    RequestSent,
    /// Waiting for the server's reply.
    AwaitReply,
    /// The request's header is being sent, but its address cannot be.
    Failing(ProtocolError),
    /// The handshake is over.
    Closed,
}

/// The client side of a SOCKS5 handshake, which asks a proxy for a link.
pub struct Socks5Client {
    phase: ClientPhase,
    request_bytes: Vec<u8>,
    request_error: Option<ProtocolError>,
    received: Vec<u8>,
}

/// The mathematical value of a [`Socks5Client`]: its phase, the request
/// bytes still to be sent, why the request cannot be sent whole (if it
/// cannot), and what has been received of the current message.
pub struct SpecClient {
    pub phase: ClientPhase,
    pub request_bytes: Seq<u8>,
    pub request_error: Option<ProtocolError>,
    pub received: Seq<u8>,
}

impl View for Socks5Client {
    type V = SpecClient;

    closed spec fn view(&self) -> SpecClient {
        SpecClient {
            phase: self.phase,
            request_bytes: self.request_bytes@,
            request_error: self.request_error,
            received: self.received@,
        }
    }
}

/// A client in a phase with the rest of its state.
pub open spec fn client_in(c: SpecClient, phase: ClientPhase, received: Seq<u8>) -> SpecClient {
    SpecClient { phase, request_bytes: c.request_bytes, request_error: c.request_error, received }
}

/// One step of the client: what it does in its phase with the bytes just
/// received.
///
/// It sends its greeting, reads the server's choice of method, sends its
/// request, and reads the server's reply. A closed client takes no step
/// (`step` requires an open one); it is given a failure here.
pub open spec fn spec_client_step(c: SpecClient, input: Seq<u8>) -> (SpecClient, SpecAction<SpecReply>) {
    match c.phase {
        ClientPhase::Start => (client_in(c, ClientPhase::OptionsSent, c.received), SpecAction::Send(spec_option_bytes())),
        ClientPhase::OptionsSent => (client_in(c, ClientPhase::AwaitAuth, Seq::empty()), SpecAction::Receive(1)),
        ClientPhase::AwaitAuth => {
            let r = c.received + input;
            match spec_parse_auth_response(r) {
                Parsed::NeedMore(n) => (client_in(c, ClientPhase::AwaitAuth, r), SpecAction::Receive(n)),
                Parsed::Invalid(e) => (client_in(c, ClientPhase::Closed, r), SpecAction::Failed(e)),
                Parsed::Done(_, _) => {
                    let next = match c.request_error {
                        Some(e) => ClientPhase::Failing(e),
                        None => ClientPhase::RequestSent,
                    };
                    (
                        SpecClient { phase: next, request_bytes: Seq::empty(), request_error: c.request_error, received: r },
                        SpecAction::Send(c.request_bytes),
                    )
                },
            }
        },
        ClientPhase::RequestSent => (client_in(c, ClientPhase::AwaitReply, Seq::empty()), SpecAction::Receive(1)),
        ClientPhase::AwaitReply => {
            let r = c.received + input;
            match spec_parse_response(r) {
                Parsed::NeedMore(n) => (client_in(c, ClientPhase::AwaitReply, r), SpecAction::Receive(n)),
                Parsed::Invalid(e) => (client_in(c, ClientPhase::Closed, r), SpecAction::Failed(e)),
                Parsed::Done(reply, _) => (client_in(c, ClientPhase::Closed, r), SpecAction::Finished(reply)),
            }
        },
        ClientPhase::Failing(e) => (client_in(c, ClientPhase::Closed, c.received), SpecAction::Failed(e)),
        ClientPhase::Closed => (c, SpecAction::Failed(ProtocolError::IncorrectVersion)),
    }
}

/// The client that is about to ask for a request.
pub open spec fn spec_new_client(req: SpecLinkRequest) -> SpecClient {
    SpecClient {
        phase: ClientPhase::Start,
        request_bytes: match spec_link_addr_write_error(req.addr) {
            Some(_) => spec_request_header(),
            None => spec_request_bytes(req),
        },
        request_error: spec_link_addr_write_error(req.addr),
        received: Seq::empty(),
    }
}

impl Socks5Client {
    /// A client that will ask the proxy for the given link.
    pub fn new(req: LinkRequest) -> (res: Socks5Client)
        ensures
            res@ == spec_new_client(req@),
    {
        let ghost r = req@;
        let mut request_bytes: Vec<u8> = Vec::new();
        let request_error = match send_request(&mut request_bytes, req) {
            Ok(()) => None,
            Err(e) => Some(e),
        };
        assert(request_bytes@ =~= match spec_link_addr_write_error(r.addr) {
            Some(_) => spec_request_header(),
            None => spec_request_bytes(r),
        });
        Socks5Client { phase: ClientPhase::Start, request_bytes, request_error, received: Vec::new() }
    }

    /// Whether the handshake is over.
    pub fn is_closed(&self) -> (res: bool)
        ensures
            res == (self@.phase == ClientPhase::Closed),
    {
        self.phase == ClientPhase::Closed
    }

    /// Whether the byte that the client waits for is the length of a
    /// domain name in the server's reply.
    pub fn awaits_domain_length(&self) -> (res: bool)
        ensures
            res == (self@.phase == ClientPhase::AwaitReply && self@.received.len() == 4
                && self@.received[3] == 3),
    {
        self.phase == ClientPhase::AwaitReply && self.received.len() == 4 && self.received[3] == 3
    }

    /// Takes one step: `input` holds the bytes that the last `Receive` asked
    /// for, and nothing after a `Send`.
    pub fn step(&mut self, input: &[u8]) -> (action: Action<Reply>)
        requires
            old(self)@.phase != ClientPhase::Closed,
        ensures
            (final(self)@, action@) == spec_client_step(old(self)@, input@),
    {
        match self.phase {
            ClientPhase::Start => {
                let mut bytes: Vec<u8> = Vec::new();
                send_option(&mut bytes);
                self.phase = ClientPhase::OptionsSent;
                assert(bytes@ =~= spec_option_bytes());
                Action::Send(bytes)
            },
            ClientPhase::OptionsSent => {
                self.phase = ClientPhase::AwaitAuth;
                self.received = Vec::new();
                Action::Receive(1)
            },
            ClientPhase::AwaitAuth => {
                push_all(&mut self.received, input);
                match read_auth_response(self.received.as_slice()) {
                    Parsed::NeedMore(n) => Action::Receive(n),
                    Parsed::Invalid(e) => {
                        self.phase = ClientPhase::Closed;
                        Action::Failed(e)
                    },
                    Parsed::Done(_, _) => {
                        self.phase = match self.request_error {
                            Some(e) => ClientPhase::Failing(e),
                            None => ClientPhase::RequestSent,
                        };
                        let mut bytes: Vec<u8> = Vec::new();
                        std::mem::swap(&mut bytes, &mut self.request_bytes);
                        Action::Send(bytes)
                    },
                }
            },
            ClientPhase::RequestSent => {
                self.phase = ClientPhase::AwaitReply;
                self.received = Vec::new();
                Action::Receive(1)
            },
            ClientPhase::AwaitReply => {
                push_all(&mut self.received, input);
                match read_response(self.received.as_slice()) {
                    Parsed::NeedMore(n) => Action::Receive(n),
                    Parsed::Invalid(e) => {
                        self.phase = ClientPhase::Closed;
                        Action::Failed(e)
                    },
                    Parsed::Done(reply, _) => {
                        self.phase = ClientPhase::Closed;
                        Action::Finished(reply)
                    },
                }
            },
            ClientPhase::Failing(e) => {
                self.phase = ClientPhase::Closed;
                Action::Failed(e)
            },
            ClientPhase::Closed => Action::Failed(ProtocolError::IncorrectVersion),
        }
    }
}

// ---------------------------------------------------------------------
// Server side
// ---------------------------------------------------------------------
/// Where a SOCKS5 server stands in its handshake with a client.
#[derive(Debug, Clone, Copy, PartialEq, Eq, Structural)]
pub enum ServerPhase {
    /// Nothing read yet.
    Start,
    /// Waiting for the client's greeting.
    AwaitOptions,
    /// The choice of method is being sent.
    AuthSent,
    /// Waiting for the client's request.
    AwaitRequest,
    /// The handshake is over.
    Closed,
}

/// The server side of a SOCKS5 handshake, which learns what a client asks
/// for.
pub struct Socks5Server {
    phase: ServerPhase,
    received: Vec<u8>,
}

/// The mathematical value of a [`Socks5Server`]: its phase and what has
/// been received of the current message.
pub struct SpecServer {
    pub phase: ServerPhase,
    pub received: Seq<u8>,
}

impl View for Socks5Server {
    type V = SpecServer;

    closed spec fn view(&self) -> SpecServer {
        SpecServer { phase: self.phase, received: self.received@ }
    }
}

/// One step of the server: what it does in its phase with the bytes just
/// received.
///
/// It reads the client's greeting, accepts it without authentication,
/// and reads the client's request. A closed server takes no step (`step`
/// requires an open one); it is given a failure here.
pub open spec fn spec_server_step(s: SpecServer, input: Seq<u8>) -> (SpecServer, SpecAction<SpecLinkRequest>) {
    match s.phase {
        ServerPhase::Start => (SpecServer { phase: ServerPhase::AwaitOptions, received: Seq::empty() }, SpecAction::Receive(1)),
        ServerPhase::AwaitOptions => {
            let r = s.received + input;
            match spec_parse_options(r) {
                Parsed::NeedMore(n) => (SpecServer { phase: ServerPhase::AwaitOptions, received: r }, SpecAction::Receive(n)),
                Parsed::Invalid(e) => (SpecServer { phase: ServerPhase::Closed, received: r }, SpecAction::Failed(e)),
                Parsed::Done(_, _) => (SpecServer { phase: ServerPhase::AuthSent, received: r }, SpecAction::Send(spec_auth_response_bytes())),
            }
        },
        ServerPhase::AuthSent => (SpecServer { phase: ServerPhase::AwaitRequest, received: Seq::empty() }, SpecAction::Receive(1)),
        ServerPhase::AwaitRequest => {
            let r = s.received + input;
            match spec_parse_request(r) {
                Parsed::NeedMore(n) => (SpecServer { phase: ServerPhase::AwaitRequest, received: r }, SpecAction::Receive(n)),
                Parsed::Invalid(e) => (SpecServer { phase: ServerPhase::Closed, received: r }, SpecAction::Failed(e)),
                Parsed::Done(req, _) => (SpecServer { phase: ServerPhase::Closed, received: r }, SpecAction::Finished(req)),
            }
        },
        ServerPhase::Closed => (s, SpecAction::Failed(ProtocolError::UnsupportedVersion)),
    }
}

impl Socks5Server {
    /// A server that has read nothing yet.
    pub fn new() -> (res: Socks5Server)
        ensures
            res@ == (SpecServer { phase: ServerPhase::Start, received: Seq::empty() }),
    {
        Socks5Server { phase: ServerPhase::Start, received: Vec::new() }
    }

    /// Whether the handshake is over.
    pub fn is_closed(&self) -> (res: bool)
        ensures
            res == (self@.phase == ServerPhase::Closed),
    {
        self.phase == ServerPhase::Closed
    }

    /// Whether the byte that the server waits for is the length of a
    /// domain name in the client's request.
    pub fn awaits_domain_length(&self) -> (res: bool)
        ensures
            res == (self@.phase == ServerPhase::AwaitRequest && self@.received.len() == 4
                && self@.received[3] == 3),
    {
        self.phase == ServerPhase::AwaitRequest && self.received.len() == 4 && self.received[3] == 3
    }

    /// Takes one step: `input` holds the bytes that the last `Receive` asked
    /// for, and nothing after a `Send`.
    pub fn step(&mut self, input: &[u8]) -> (action: Action<LinkRequest>)
        requires
            old(self)@.phase != ServerPhase::Closed,
        ensures
            (final(self)@, action@) == spec_server_step(old(self)@, input@),
    {
        match self.phase {
            ServerPhase::Start => {
                self.phase = ServerPhase::AwaitOptions;
                self.received = Vec::new();
                Action::Receive(1)
            },
            ServerPhase::AwaitOptions => {
                push_all(&mut self.received, input);
                match read_options(self.received.as_slice()) {
                    Parsed::NeedMore(n) => Action::Receive(n),
                    Parsed::Invalid(e) => {
                        self.phase = ServerPhase::Closed;
                        Action::Failed(e)
                    },
                    Parsed::Done(_, _) => {
                        self.phase = ServerPhase::AuthSent;
                        let mut bytes: Vec<u8> = Vec::new();
                        send_auth_response(&mut bytes);
                        assert(bytes@ =~= spec_auth_response_bytes());
                        Action::Send(bytes)
                    },
                }
            },
            ServerPhase::AuthSent => {
                self.phase = ServerPhase::AwaitRequest;
                self.received = Vec::new();
                Action::Receive(1)
            },
            ServerPhase::AwaitRequest => {
                push_all(&mut self.received, input);
                match read_request(self.received.as_slice()) {
                    Parsed::NeedMore(n) => Action::Receive(n),
                    Parsed::Invalid(e) => {
                        self.phase = ServerPhase::Closed;
                        Action::Failed(e)
                    },
                    Parsed::Done(req, _) => {
                        self.phase = ServerPhase::Closed;
                        Action::Finished(req)
                    },
                }
            },
            ServerPhase::Closed => Action::Failed(ProtocolError::UnsupportedVersion),
        }
    }
}

} // verus!
