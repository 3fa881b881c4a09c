use neutrino::addr::{LinkAddr, LinkRequest};
use neutrino::error::ProtocolError;
use neutrino::handshake::{Action, Socks5Client, Socks5Server};
use neutrino::socks5::{send_response, Reply, ReplyType};

/// Steps a handshake as far as the bytes in `inbox` allow; returns its
/// outcome once it has one.
fn pump<T>(
    step: &mut dyn FnMut(&[u8]) -> Action<T>,
    want: &mut Option<usize>,
    inbox: &mut Vec<u8>,
    outbox: &mut Vec<u8>,
) -> Option<Result<T, ProtocolError>> {
    loop {
        let input: Vec<u8> = match *want {
            None => Vec::new(),
            Some(n) => {
                if inbox.len() < n {
                    return None;
                }
                inbox.drain(..n).collect()
            }
        };
        match step(&input) {
            Action::Send(b) => {
                outbox.extend_from_slice(&b);
                *want = None;
            }
            Action::Receive(n) => *want = Some(n),
            Action::Finished(v) => return Some(Ok(v)),
            Action::Failed(e) => return Some(Err(e)),
        }
    }
}

/// Runs a client against a server until both are done; the server answers
/// a request with `reply`. Returns what the server read and what the client
/// was answered, and the bytes left unread on each side.
fn converse(
    req: LinkRequest,
    reply: ReplyType,
) -> (Option<Result<LinkRequest, ProtocolError>>, Option<Result<Reply, ProtocolError>>) {
    let mut client = Socks5Client::new(req);
    let mut server = Socks5Server::new();
    let (mut to_server, mut to_client) = (Vec::new(), Vec::new());
    let (mut cw, mut sw) = (None, None);
    let (mut c_out, mut s_out) = (None, None);
    for _ in 0..100 {
        if c_out.is_none() {
            c_out = pump(&mut |i: &[u8]| client.step(i), &mut cw, &mut to_client, &mut to_server);
        }
        if s_out.is_none() {
            s_out = pump(&mut |i: &[u8]| server.step(i), &mut sw, &mut to_server, &mut to_client);
            if let Some(Ok(_)) = s_out {
                send_response(&mut to_client, reply);
            }
        }
        if c_out.is_some() && s_out.is_some() {
            break;
        }
    }
    (s_out, c_out)
}

#[test]
fn client_and_server_agree_on_ipv4_request() {
    let req = LinkRequest { addr: LinkAddr::IPv4([10, 1, 2, 3]), port: 8080 };
    let (server, client) = converse(req.clone(), ReplyType::Succeeded);
    assert_eq!(server, Some(Ok(req)));
    assert_eq!(
        client,
        Some(Ok(Reply { reptype: ReplyType::Succeeded, addr: LinkAddr::IPv4([0, 0, 0, 0]), port: 0 }))
    );
}

#[test]
fn client_and_server_agree_on_domain_request() {
    let req = LinkRequest { addr: LinkAddr::Domain(b"www.example.com".to_vec()), port: 443 };
    let (server, client) = converse(req.clone(), ReplyType::Refused);
    assert_eq!(server, Some(Ok(req)));
    assert_eq!(client.unwrap().unwrap().reptype, ReplyType::Refused);
}

#[test]
fn server_refuses_ipv6_request_from_client() {
    let req = LinkRequest { addr: LinkAddr::IPv6([1; 16]), port: 1 };
    let (server, client) = converse(req, ReplyType::Succeeded);
    assert_eq!(server, Some(Err(ProtocolError::UnsupportedAddressType)));
    assert_eq!(client, None);
}

#[test]
fn client_first_sends_its_greeting() {
    let mut client = Socks5Client::new(LinkRequest { addr: LinkAddr::IPv4([1, 2, 3, 4]), port: 5 });
    assert_eq!(client.step(&[]), Action::Send(vec![5, 1, 0]));
    assert_eq!(client.step(&[]), Action::Receive(1));
    assert_eq!(client.step(&[5]), Action::Receive(1));
    assert_eq!(client.step(&[0]), Action::Send(vec![5, 1, 0, 1, 1, 2, 3, 4, 0, 5]));
    assert_eq!(client.step(&[]), Action::Receive(1));
    assert!(!client.is_closed());
}

#[test]
fn client_fails_when_auth_is_refused() {
    let mut client = Socks5Client::new(LinkRequest { addr: LinkAddr::IPv4([1, 2, 3, 4]), port: 5 });
    client.step(&[]);
    client.step(&[]);
    assert_eq!(client.step(&[5]), Action::Receive(1));
    assert_eq!(client.step(&[0xff]), Action::Failed(ProtocolError::AuthFailed));
    assert!(client.is_closed());
}

#[test]
fn client_fails_on_wrong_server_version() {
    let mut client = Socks5Client::new(LinkRequest { addr: LinkAddr::IPv4([1, 2, 3, 4]), port: 5 });
    client.step(&[]);
    client.step(&[]);
    assert_eq!(client.step(&[4]), Action::Failed(ProtocolError::UnsupportedVersion));
}

#[test]
fn client_fails_on_wrong_reply_version() {
    let mut client = Socks5Client::new(LinkRequest { addr: LinkAddr::IPv4([1, 2, 3, 4]), port: 5 });
    client.step(&[]);
    client.step(&[]);
    client.step(&[5]);
    client.step(&[0]);
    client.step(&[]);
    assert_eq!(client.step(&[6]), Action::Failed(ProtocolError::IncorrectVersion));
}

#[test]
fn client_with_unwritable_address_sends_header_then_fails() {
    let mut client = Socks5Client::new(LinkRequest { addr: LinkAddr::Unknown(), port: 5 });
    client.step(&[]);
    client.step(&[]);
    client.step(&[5]);
    assert_eq!(client.step(&[0]), Action::Send(vec![5, 1, 0]));
    assert_eq!(client.step(&[]), Action::Failed(ProtocolError::UnwritableAddress));
    assert!(client.is_closed());
}

#[test]
fn client_with_too_long_domain_fails() {
    let mut client = Socks5Client::new(LinkRequest { addr: LinkAddr::Domain(vec![b'q'; 300]), port: 5 });
    client.step(&[]);
    client.step(&[]);
    client.step(&[5]);
    assert_eq!(client.step(&[0]), Action::Send(vec![5, 1, 0]));
    assert_eq!(client.step(&[]), Action::Failed(ProtocolError::DomainTooLong));
}

#[test]
fn server_steps() {
    let mut server = Socks5Server::new();
    assert_eq!(server.step(&[]), Action::Receive(1));
    assert_eq!(server.step(&[5]), Action::Receive(1));
    assert_eq!(server.step(&[2]), Action::Receive(2));
    assert_eq!(server.step(&[0, 2]), Action::Send(vec![5, 0]));
    assert_eq!(server.step(&[]), Action::Receive(1));
    assert_eq!(server.step(&[5]), Action::Receive(1));
    assert_eq!(server.step(&[1]), Action::Receive(1));
    assert_eq!(server.step(&[0]), Action::Receive(1));
    assert_eq!(server.step(&[1]), Action::Receive(4));
    assert_eq!(server.step(&[8, 8, 8, 8]), Action::Receive(2));
    assert_eq!(
        server.step(&[0, 53]),
        Action::Finished(LinkRequest { addr: LinkAddr::IPv4([8, 8, 8, 8]), port: 53 })
    );
    assert!(server.is_closed());
}

#[test]
fn server_refuses_wrong_version_and_command() {
    let mut server = Socks5Server::new();
    server.step(&[]);
    assert_eq!(server.step(&[4]), Action::Failed(ProtocolError::UnsupportedVersion));
    let mut server = Socks5Server::new();
    server.step(&[]);
    server.step(&[5]);
    assert_eq!(server.step(&[0]), Action::Send(vec![5, 0]));
    server.step(&[]);
    server.step(&[5]);
    assert_eq!(server.step(&[2]), Action::Failed(ProtocolError::UnsupportedCommand));
}

#[test]
fn server_knows_when_it_waits_for_a_domain_length() {
    let mut server = Socks5Server::new();
    server.step(&[]);
    server.step(&[5]);
    server.step(&[0]);
    server.step(&[]);
    server.step(&[5]);
    server.step(&[1]);
    assert!(!server.awaits_domain_length());
    server.step(&[0]);
    assert!(!server.awaits_domain_length());
    assert_eq!(server.step(&[3]), Action::Receive(1));
    assert!(server.awaits_domain_length());
    assert_eq!(server.step(&[2]), Action::Receive(2));
    assert!(!server.awaits_domain_length());
}

#[test]
fn client_knows_when_it_waits_for_a_domain_length() {
    let mut client = Socks5Client::new(LinkRequest { addr: LinkAddr::IPv4([1, 2, 3, 4]), port: 5 });
    client.step(&[]);
    client.step(&[]);
    client.step(&[5]);
    client.step(&[0]);
    client.step(&[]);
    client.step(&[5]);
    assert!(!client.awaits_domain_length());
    assert_eq!(client.step(&[0, 0]), Action::Receive(1));
    assert_eq!(client.step(&[3]), Action::Receive(1));
    assert!(client.awaits_domain_length());
}
