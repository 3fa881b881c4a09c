use vstd::prelude::*;

use crate::addr::{LinkAddr, LinkRequest, SpecLinkAddr, SpecLinkRequest};
use crate::error::ProtocolError;
use crate::handshake::{
    spec_client_step, spec_new_client, spec_server_step, ClientPhase, ServerPhase, SpecAction,
    SpecClient, SpecServer,
};
use crate::socks5::{
    lemma_reply_code_roundtrip, spec_auth_response_bytes, spec_link_addr_write_error,
    spec_option_bytes, spec_parse_request, spec_parse_response, spec_request_bytes,
    spec_response_bytes, Parsed, ReplyType, SpecReply,
};

verus! {

/// How a handshake ends when it is run against a stream of incoming bytes:
/// with its outcome, with a failure, or starved of bytes; each with all
/// the bytes it sent.
pub enum Outcome<T> {
    Finished(T, Seq<u8>),
    Failed(ProtocolError, Seq<u8>),
    Starved(Seq<u8>),
}

/// Runs a server against incoming bytes, for at most `fuel` steps: every
/// `Receive` takes the bytes it asks for from the front of `stream`, every
/// `Send` adds to what was sent.
pub open spec fn run_server(
    s: SpecServer,
    input: Seq<u8>,
    stream: Seq<u8>,
    sent: Seq<u8>,
    fuel: nat,
) -> Outcome<SpecLinkRequest>
    decreases fuel,
{
    if fuel == 0 || s.phase == ServerPhase::Closed {
        Outcome::Starved(sent)
    } else {
        let (next, action) = spec_server_step(s, input);
        match action {
            SpecAction::Send(b) => run_server(next, Seq::empty(), stream, sent + b, (fuel - 1) as nat),
            SpecAction::Receive(n) => if stream.len() < n {
                Outcome::Starved(sent)
            } else {
                run_server(next, stream.take(n as int), stream.skip(n as int), sent, (fuel - 1) as nat)
            },
            SpecAction::Finished(v) => Outcome::Finished(v, sent),
            SpecAction::Failed(e) => Outcome::Failed(e, sent),
        }
    }
}

/// Runs a client against incoming bytes, in the same way.
pub open spec fn run_client(
    c: SpecClient,
    input: Seq<u8>,
    stream: Seq<u8>,
    sent: Seq<u8>,
    fuel: nat,
) -> Outcome<SpecReply>
    decreases fuel,
{
    if fuel == 0 || c.phase == ClientPhase::Closed {
        Outcome::Starved(sent)
    } else {
        let (next, action) = spec_client_step(c, input);
        match action {
            SpecAction::Send(b) => run_client(next, Seq::empty(), stream, sent + b, (fuel - 1) as nat),
            SpecAction::Receive(n) => if stream.len() < n {
                Outcome::Starved(sent)
            } else {
                run_client(next, stream.take(n as int), stream.skip(n as int), sent, (fuel - 1) as nat)
            },
            SpecAction::Finished(v) => Outcome::Finished(v, sent),
            SpecAction::Failed(e) => Outcome::Failed(e, sent),
        }
    }
}

/// A request that the client can write and the server can read.
pub open spec fn readable_request(req: SpecLinkRequest) -> bool {
    &&& spec_link_addr_write_error(req.addr) is None
    &&& !(req.addr is IPv6)
}

/// Every proper prefix of a readable request's bytes asks for more bytes,
/// never beyond the end of the request; the whole gives the request.
proof fn lemma_request_prefixes(req: LinkRequest, j: int)
    requires
        readable_request(req@),
        0 <= j <= spec_request_bytes(req@).len(),
    ensures
        ({
            let m = spec_request_bytes(req@);
            if j == m.len() {
                spec_parse_request(m.take(j)) == Parsed::Done(req@, m.len() as usize)
            } else {
                spec_parse_request(m.take(j)) matches Parsed::NeedMore(n) && 0 < n && j + n
                    <= m.len()
            }
        }),
{
    let m = spec_request_bytes(req@);
    let t = m.take(j);
    assert(m.take(m.len() as int) =~= m);
    if j >= 3 {
        let u = t.subrange(3, t.len() as int);
        assert(u =~= m.subrange(3, j));
        match req.addr {
            LinkAddr::IPv4(ip) => {
                assert(m.len() == 10);
                if j >= 4 {
                    assert(u[0] == 1u8);
                }
                if j >= 8 {
                    assert(u.subrange(1, 5) =~= ip@);
                }
            },
            LinkAddr::Domain(d) => {
                assert(m.len() == 7 + d@.len());
                if j >= 4 {
                    assert(u[0] == 3u8);
                }
                if j >= 5 {
                    assert(u[1] == d@.len() as u8);
                }
                if j >= 5 + d@.len() {
                    assert(u.subrange(2, 2 + d@.len() as int) =~= d@);
                }
            },
            _ => {},
        }
    }
}

/// Every proper prefix of a reply's bytes asks for more bytes, never beyond
/// the end of the reply; the whole gives the reply.
proof fn lemma_response_prefixes(reptype: ReplyType, j: int)
    requires
        0 <= j <= 10,
    ensures
        ({
            let m = spec_response_bytes(reptype);
            if j == 10 {
                spec_parse_response(m.take(j)) == Parsed::Done(
                    SpecReply {
                        reptype,
                        addr: SpecLinkAddr::IPv4(seq![0u8, 0u8, 0u8, 0u8]),
                        port: 0,
                    },
                    10,
                )
            } else {
                spec_parse_response(m.take(j)) matches Parsed::NeedMore(n) && 0 < n && j + n <= 10
            }
        }),
{
    let m = spec_response_bytes(reptype);
    let t = m.take(j);
    lemma_reply_code_roundtrip(reptype);
    if j >= 3 {
        let u = t.subrange(3, t.len() as int);
        assert(u =~= m.subrange(3, j));
        if j >= 4 {
            assert(u[0] == 1u8);
        }
        if j >= 8 {
            assert(u.subrange(1, 5) =~= seq![0u8, 0u8, 0u8, 0u8]);
        }
    }
}

/// A server reading a request in chunks, as it asks for them, finishes
/// with the request.
proof fn lemma_server_reads_request(
    req: LinkRequest,
    j: int,
    k: int,
    rest: Seq<u8>,
    sent: Seq<u8>,
    fuel: nat,
)
    requires
        readable_request(req@),
        0 <= j < k <= spec_request_bytes(req@).len(),
        j == 0 ==> k == 1,
        j > 0 ==> spec_parse_request(spec_request_bytes(req@).take(j)) == Parsed::<
            SpecLinkRequest,
        >::NeedMore((k - j) as usize),
        fuel >= spec_request_bytes(req@).len() - j,
    ensures
        ({
            let m = spec_request_bytes(req@);
            run_server(
                SpecServer { phase: ServerPhase::AwaitRequest, received: m.take(j) },
                m.subrange(j, k),
                m.skip(k) + rest,
                sent,
                fuel,
            ) == Outcome::<SpecLinkRequest>::Finished(req@, sent)
        }),
    decreases spec_request_bytes(req@).len() - j,
{
    let m = spec_request_bytes(req@);
    assert(m.take(j) + m.subrange(j, k) =~= m.take(k));
    lemma_request_prefixes(req, k);
    if k < m.len() {
        if let Parsed::NeedMore(n) = spec_parse_request(m.take(k)) {
            let stream = m.skip(k) + rest;
            assert(stream.take(n as int) =~= m.subrange(k, k + n));
            assert(stream.skip(n as int) =~= m.skip(k + n) + rest);
            lemma_server_reads_request(req, k, k + n, rest, sent, (fuel - 1) as nat);
        }
    }
}

/// A client reading a reply in chunks, as it asks for them, finishes with
/// the reply.
proof fn lemma_client_reads_reply(
    c: SpecClient,
    reptype: ReplyType,
    j: int,
    k: int,
    rest: Seq<u8>,
    sent: Seq<u8>,
    fuel: nat,
)
    requires
        c.phase == ClientPhase::AwaitReply,
        c.received == spec_response_bytes(reptype).take(j),
        0 <= j < k <= 10,
        j == 0 ==> k == 1,
        j > 0 ==> spec_parse_response(spec_response_bytes(reptype).take(j)) == Parsed::<
            SpecReply,
        >::NeedMore((k - j) as usize),
        fuel >= 10 - j,
    ensures
        ({
            let m = spec_response_bytes(reptype);
            run_client(c, m.subrange(j, k), m.skip(k) + rest, sent, fuel)
                == Outcome::<SpecReply>::Finished(
                SpecReply {
                    reptype,
                    addr: SpecLinkAddr::IPv4(seq![0u8, 0u8, 0u8, 0u8]),
                    port: 0,
                },
                sent,
            )
        }),
    decreases 10 - j,
{
    let m = spec_response_bytes(reptype);
    assert(m.take(j) + m.subrange(j, k) =~= m.take(k));
    lemma_response_prefixes(reptype, k);
    if k < 10 {
        if let Parsed::NeedMore(n) = spec_parse_response(m.take(k)) {
            let stream = m.skip(k) + rest;
            assert(stream.take(n as int) =~= m.subrange(k, k + n));
            assert(stream.skip(n as int) =~= m.skip(k + n) + rest);
            let next = SpecClient {
                phase: ClientPhase::AwaitReply,
                request_bytes: c.request_bytes,
                request_error: c.request_error,
                received: m.take(k),
            };
            lemma_client_reads_reply(next, reptype, k, k + n, rest, sent, (fuel - 1) as nat);
        }
    }
}

/// A server that is sent a client's greeting and a readable request,
/// followed by anything, accepts the greeting and finishes with that
/// request.
pub proof fn lemma_server_accepts_client(req: LinkRequest, rest: Seq<u8>)
    requires
        readable_request(req@),
    ensures
        run_server(
            SpecServer { phase: ServerPhase::Start, received: Seq::empty() },
            Seq::empty(),
            spec_option_bytes() + spec_request_bytes(req@) + rest,
            Seq::empty(),
            spec_request_bytes(req@).len() + 5,
        ) == Outcome::<SpecLinkRequest>::Finished(req@, spec_auth_response_bytes()),
{
    let m = spec_request_bytes(req@);
    let f = m.len();
    let stream = spec_option_bytes() + m + rest;
    let e = Seq::<u8>::empty();
    let ab = spec_auth_response_bytes();
    // Start: asks for the version.
    let s1 = SpecServer { phase: ServerPhase::AwaitOptions, received: e };
    assert(stream.take(1) =~= seq![5u8]);
    let st1 = stream.skip(1);
    // Version read: asks for the count.
    assert(e + seq![5u8] =~= seq![5u8]);
    let s2 = SpecServer { phase: ServerPhase::AwaitOptions, received: seq![5u8] };
    assert(st1.take(1) =~= seq![1u8]);
    let st2 = st1.skip(1);
    // Count read: asks for the one method.
    assert(seq![5u8] + seq![1u8] =~= seq![5u8, 1u8]);
    let s3 = SpecServer { phase: ServerPhase::AwaitOptions, received: seq![5u8, 1u8] };
    assert(st2.take(1) =~= seq![0u8]);
    let st3 = st2.skip(1);
    assert(seq![5u8, 1u8] + seq![0u8] =~= seq![5u8, 1u8, 0u8]);
    assert(seq![5u8, 1u8, 0u8].subrange(2, 3) =~= seq![0u8]);
    // Greeting read: sends the choice of method.
    let s4 = SpecServer { phase: ServerPhase::AuthSent, received: seq![5u8, 1u8, 0u8] };
    let s5 = SpecServer { phase: ServerPhase::AwaitRequest, received: e };
    assert(st3 =~= m + rest);
    assert(st3.take(1) =~= m.subrange(0, 1));
    assert(st3.skip(1) =~= m.skip(1) + rest);
    assert(m.take(0) =~= e);
    assert(e + ab =~= ab);
    lemma_server_reads_request(req, 0, 1, rest, ab, f);
    assert(run_server(s5, st3.take(1), st3.skip(1), ab, f) == Outcome::<SpecLinkRequest>::Finished(req@, ab));
    assert(run_server(s4, e, st3, ab, f + 1) == Outcome::<SpecLinkRequest>::Finished(req@, ab));
    assert(run_server(s3, st2.take(1), st3, e, f + 2) == Outcome::<SpecLinkRequest>::Finished(req@, ab));
    assert(run_server(s2, st1.take(1), st2, e, f + 3) == Outcome::<SpecLinkRequest>::Finished(req@, ab));
    assert(run_server(s1, stream.take(1), st1, e, f + 4) == Outcome::<SpecLinkRequest>::Finished(req@, ab));
}

/// A client that is answered with the server's choice of method and a
/// reply, followed by anything, sends its greeting and its request, and
/// finishes with that reply.
pub proof fn lemma_client_completes(req: LinkRequest, reptype: ReplyType, rest: Seq<u8>)
    requires
        spec_link_addr_write_error(req.addr@) is None,
    ensures
        run_client(
            spec_new_client(req@),
            Seq::empty(),
            spec_auth_response_bytes() + spec_response_bytes(reptype) + rest,
            Seq::empty(),
            16,
        ) == Outcome::<SpecReply>::Finished(
            SpecReply { reptype, addr: SpecLinkAddr::IPv4(seq![0u8, 0u8, 0u8, 0u8]), port: 0 },
            spec_option_bytes() + spec_request_bytes(req@),
        ),
{
    let m = spec_response_bytes(reptype);
    let stream = spec_auth_response_bytes() + m + rest;
    let e = Seq::<u8>::empty();
    let c0 = spec_new_client(req@);
    let rb = spec_request_bytes(req@);
    let ob = spec_option_bytes();
    let reply = SpecReply { reptype, addr: SpecLinkAddr::IPv4(seq![0u8, 0u8, 0u8, 0u8]), port: 0 };
    // Start: sends the greeting.
    let c1 = SpecClient { phase: ClientPhase::OptionsSent, request_bytes: rb, request_error: None, received: e };
    assert(e + ob =~= ob);
    // Greeting sent: asks for the version.
    let c2 = SpecClient { phase: ClientPhase::AwaitAuth, request_bytes: rb, request_error: None, received: e };
    assert(stream.take(1) =~= seq![5u8]);
    let st1 = stream.skip(1);
    // Version read: asks for the method.
    assert(e + seq![5u8] =~= seq![5u8]);
    let c3 = SpecClient { phase: ClientPhase::AwaitAuth, request_bytes: rb, request_error: None, received: seq![5u8] };
    assert(st1.take(1) =~= seq![0u8]);
    let st2 = st1.skip(1);
    assert(seq![5u8] + seq![0u8] =~= seq![5u8, 0u8]);
    // Method read: sends the request.
    let c4 = SpecClient { phase: ClientPhase::RequestSent, request_bytes: e, request_error: None, received: seq![5u8, 0u8] };
    // Request sent: asks for the reply's version.
    let c5 = SpecClient { phase: ClientPhase::AwaitReply, request_bytes: e, request_error: None, received: e };
    assert(st2 =~= m + rest);
    assert(st2.take(1) =~= m.subrange(0, 1));
    assert(st2.skip(1) =~= m.skip(1) + rest);
    assert(m.take(0) =~= e);
    lemma_client_reads_reply(c5, reptype, 0, 1, rest, ob + rb, 11);
    assert(run_client(c5, st2.take(1), st2.skip(1), ob + rb, 11) == Outcome::Finished(reply, ob + rb));
    assert(run_client(c4, e, st2, ob + rb, 12) == Outcome::Finished(reply, ob + rb));
    assert(run_client(c3, st1.take(1), st2, ob, 13) == Outcome::Finished(reply, ob + rb));
    assert(run_client(c2, stream.take(1), st1, ob, 14) == Outcome::Finished(reply, ob + rb));
    assert(run_client(c1, e, stream, ob, 15) == Outcome::Finished(reply, ob + rb));
    assert(run_client(c0, e, stream, e, 16) == Outcome::Finished(reply, ob + rb));
}

/// A client whose request cannot be written sends its greeting and, once
/// accepted, the request's header only, and then fails with the reason.
pub proof fn lemma_client_unwritable_request(req: LinkRequest, rest: Seq<u8>)
    requires
        spec_link_addr_write_error(req.addr@) is Some,
    ensures
        run_client(
            spec_new_client(req@),
            Seq::empty(),
            spec_auth_response_bytes() + rest,
            Seq::empty(),
            8,
        ) == Outcome::<SpecReply>::Failed(
            spec_link_addr_write_error(req.addr@).unwrap(),
            seq![5u8, 1u8, 0u8] + seq![5u8, 1u8, 0u8],
        ),
{
    let e = Seq::<u8>::empty();
    let err = spec_link_addr_write_error(req.addr@).unwrap();
    let hb = seq![5u8, 1u8, 0u8];
    let stream = spec_auth_response_bytes() + rest;
    let c0 = spec_new_client(req@);
    assert(c0.request_bytes == hb);
    assert(e + spec_option_bytes() =~= hb);
    let c1 = SpecClient { phase: ClientPhase::OptionsSent, request_bytes: hb, request_error: Some(err), received: e };
    let c2 = SpecClient { phase: ClientPhase::AwaitAuth, request_bytes: hb, request_error: Some(err), received: e };
    assert(stream.take(1) =~= seq![5u8]);
    let st1 = stream.skip(1);
    assert(e + seq![5u8] =~= seq![5u8]);
    let c3 = SpecClient { phase: ClientPhase::AwaitAuth, request_bytes: hb, request_error: Some(err), received: seq![5u8] };
    assert(st1.take(1) =~= seq![0u8]);
    let st2 = st1.skip(1);
    assert(seq![5u8] + seq![0u8] =~= seq![5u8, 0u8]);
    let c4 = SpecClient { phase: ClientPhase::Failing(err), request_bytes: e, request_error: Some(err), received: seq![5u8, 0u8] };
    assert(run_client(c4, e, st2, hb + hb, 4) == Outcome::<SpecReply>::Failed(err, hb + hb));
    assert(run_client(c3, st1.take(1), st2, hb, 5) == Outcome::<SpecReply>::Failed(err, hb + hb));
    assert(run_client(c2, stream.take(1), st1, hb, 6) == Outcome::<SpecReply>::Failed(err, hb + hb));
    assert(run_client(c1, e, stream, hb, 7) == Outcome::<SpecReply>::Failed(err, hb + hb));
}

} // verus!
