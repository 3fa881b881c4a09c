use vstd::prelude::*;

use crate::addr::{
    lemma_socket_addr_roundtrip, spec_request_for, spec_socket_addr_of, spec_unscoped, LinkRequest,
    SocketAddress, SpecLinkRequest,
};
use crate::chain::{spec_connect, spec_headers_to_strip, SpecConnectPlan, SpecOutputStep};
use crate::config::{node_type_of, spec_input_chain, spec_output_chain, AddrField, NodeConfig};
use crate::config_laws::{has_type, input_layer, lemma_names_differ, output_layer};
use crate::error::ProtocolError;

verus! {

/// What one proxy's output chain `tcp, header_injector, socks5` injects,
/// the other proxy's input chain `socks5_server, header_injector` with the
/// same injection strips: the client side connects to the SOCKS5 proxy,
/// writes the header, then asks the proxy for the request; the server side
/// strips a header of that length, then serves the SOCKS5 client. (The
/// proxy is connected to without IPv6 flow information or scope id.)
pub proof fn lemma_injected_header_is_stripped(
    out_nodes: Seq<NodeConfig>,
    in_nodes: Seq<NodeConfig>,
    req: LinkRequest,
)
    requires
        out_nodes.len() == 3,
        out_nodes[0].node_type is Some && node_type_of(out_nodes[0]) == "tcp"@,
        out_nodes[1].node_type is Some && node_type_of(out_nodes[1]) == "header_injector"@,
        out_nodes[2].node_type is Some && node_type_of(out_nodes[2]) == "socks5"@,
        out_nodes[1].injection is Some,
        out_nodes[2].addr is Parsed,
        in_nodes.len() == 2,
        in_nodes[0].node_type is Some && node_type_of(in_nodes[0]) == "socks5_server"@,
        in_nodes[1].node_type is Some && node_type_of(in_nodes[1]) == "header_injector"@,
        in_nodes[1].injection == out_nodes[1].injection,
    ensures
        spec_connect(spec_output_chain(out_nodes).unwrap(), req) == Ok::<
            SpecConnectPlan,
            ProtocolError,
        >(
            SpecConnectPlan {
                target: spec_unscoped(out_nodes[2].addr->Parsed_0),
                steps: seq![
                    SpecOutputStep::Inject(out_nodes[1].injection.unwrap()@),
                    SpecOutputStep::Socks5(req@),
                ],
            },
        ),
        spec_headers_to_strip(spec_input_chain(in_nodes).unwrap()) == seq![
            out_nodes[1].injection.unwrap()@.len() as usize,
        ],
{
    reveal_strlit("tcp");
    reveal_strlit("socks5");
    reveal_strlit("header_injector");
    reveal_strlit("socks5_server");
    assert("tcp"@.len() == 3);
    assert("socks5"@.len() == 6);
    assert("header_injector"@.len() == 15);
    assert("tcp"@ != "socks5"@);
    assert("tcp"@ != "header_injector"@);
    assert("header_injector"@ != "socks5"@);
    assert("header_injector"@ != "socks5_server"@);
    let o1 = out_nodes.subrange(0, 1);
    let o2 = out_nodes.subrange(0, 2);
    assert(o2.drop_last() =~= o1);
    assert(out_nodes.drop_last() =~= o2);
    assert(o1.drop_last() =~= Seq::<NodeConfig>::empty());
    let i1 = in_nodes.subrange(0, 1);
    assert(in_nodes.drop_last() =~= i1);
    assert(i1.drop_last() =~= Seq::<NodeConfig>::empty());
    let proxy = out_nodes[2].addr->Parsed_0;
    lemma_socket_addr_roundtrip(proxy);
    let tcp = spec_output_chain(o1).unwrap();
    let inj = spec_output_chain(o2).unwrap();
    assert(spec_connect(tcp, crate::addr::spec_request_for(proxy)) == Ok::<
        SpecConnectPlan,
        ProtocolError,
    >(SpecConnectPlan { target: spec_unscoped(proxy), steps: Seq::empty() }));
    assert(seq![SpecOutputStep::Inject(out_nodes[1].injection.unwrap()@)] =~= Seq::<
        SpecOutputStep,
    >::empty().push(SpecOutputStep::Inject(out_nodes[1].injection.unwrap()@)));
    assert(spec_connect(inj, crate::addr::spec_request_for(proxy)) == Ok::<
        SpecConnectPlan,
        ProtocolError,
    >(
        SpecConnectPlan {
            target: spec_unscoped(proxy),
            steps: seq![SpecOutputStep::Inject(out_nodes[1].injection.unwrap()@)],
        },
    ));
    assert(seq![
        SpecOutputStep::Inject(out_nodes[1].injection.unwrap()@),
        SpecOutputStep::Socks5(req@),
    ] =~= seq![SpecOutputStep::Inject(out_nodes[1].injection.unwrap()@)].push(
        SpecOutputStep::Socks5(req@),
    ));
    let server = spec_input_chain(i1).unwrap();
    assert(spec_headers_to_strip(server) =~= Seq::<usize>::empty());
    assert(seq![out_nodes[1].injection.unwrap()@.len() as usize] + Seq::<usize>::empty() =~= seq![
        out_nodes[1].injection.unwrap()@.len() as usize,
    ]);
}

/// The lengths of the injections of the header injectors that come after
/// the last SOCKS5 server of an input chain's nodes, last node first; a
/// header injector that is the first node has no parent to hand the
/// connection to and strips nothing.
pub open spec fn injected_since_server(nodes: Seq<NodeConfig>) -> Seq<usize>
    decreases nodes.len(),
{
    if nodes.len() <= 1 || has_type(nodes.last(), "socks5_server"@) {
        Seq::empty()
    } else {
        seq![nodes.last().injection.unwrap()@.len() as usize] + injected_since_server(nodes.drop_last())
    }
}

/// A loaded input chain strips, from a new connection, one header for each
/// header injector configured after its last SOCKS5 server, the last
/// configured (the outermost) first, each as long as its injection.
pub proof fn lemma_input_chain_strips(nodes: Seq<NodeConfig>)
    requires
        nodes.len() > 0,
        forall|i: int| 0 <= i < nodes.len() ==> input_layer(#[trigger] nodes[i]),
    ensures
        spec_headers_to_strip(spec_input_chain(nodes).unwrap()) == injected_since_server(nodes),
    decreases nodes.len(),
{
    lemma_names_differ();
    let d = nodes.drop_last();
    assert(input_layer(nodes[nodes.len() - 1]));
    if nodes.len() > 1 {
        assert forall|i: int| 0 <= i < d.len() implies input_layer(#[trigger] d[i]) by {
            assert(d[i] == nodes[i]);
        }
        lemma_input_chain_strips(d);
    } else {
        assert(d.len() == 0);
    }
}

/// What the SOCKS5 node at position `i` of an output chain's nodes asks
/// its proxy for: the address of the next SOCKS5 node after it, or, where
/// there is none, the request itself.
pub open spec fn asked_by(nodes: Seq<NodeConfig>, i: int, req: SpecLinkRequest) -> SpecLinkRequest
    decreases nodes.len() - i,
{
    if i + 1 >= nodes.len() {
        req
    } else if has_type(nodes[i + 1], "socks5"@) {
        spec_request_for(nodes[i + 1].addr->Parsed_0)@
    } else {
        asked_by(nodes, i + 1, req)
    }
}

/// The step that the node at position `i` of an output chain's nodes adds:
/// a SOCKS5 node asks its proxy, a header injector writes its injection.
pub open spec fn step_of(nodes: Seq<NodeConfig>, i: int, req: SpecLinkRequest) -> SpecOutputStep {
    if has_type(nodes[i], "socks5"@) {
        SpecOutputStep::Socks5(asked_by(nodes, i, req))
    } else {
        SpecOutputStep::Inject(nodes[i].injection.unwrap()@)
    }
}

/// Where the TCP connection goes, looking from position `i` on: to the
/// first SOCKS5 node's proxy (without IPv6 flow information or scope id),
/// or, where there is none, to the requested address itself.
pub open spec fn first_target(nodes: Seq<NodeConfig>, i: int, req: LinkRequest) -> Result<
    SocketAddress,
    ProtocolError,
>
    decreases nodes.len() - i,
{
    if i >= nodes.len() {
        spec_socket_addr_of(req)
    } else if has_type(nodes[i], "socks5"@) {
        Ok(spec_unscoped(nodes[i].addr->Parsed_0))
    } else {
        first_target(nodes, i + 1, req)
    }
}

proof fn lemma_asked_by_top_injector(nodes: Seq<NodeConfig>, i: int, r: SpecLinkRequest)
    requires
        nodes.len() >= 2,
        0 <= i < nodes.len() - 1,
        !has_type(nodes.last(), "socks5"@),
    ensures
        asked_by(nodes, i, r) == asked_by(nodes.drop_last(), i, r),
    decreases nodes.len() - i,
{
    let d = nodes.drop_last();
    if i + 1 < nodes.len() - 1 {
        assert(d[i + 1] == nodes[i + 1]);
        lemma_asked_by_top_injector(nodes, i + 1, r);
    } else {
        assert(nodes[i + 1] == nodes.last());
        assert(asked_by(nodes, i + 1, r) == r);
    }
}

proof fn lemma_asked_by_top_socks5(nodes: Seq<NodeConfig>, i: int, r: SpecLinkRequest)
    requires
        nodes.len() >= 2,
        0 <= i < nodes.len() - 1,
        has_type(nodes.last(), "socks5"@),
    ensures
        asked_by(nodes, i, r) == asked_by(
            nodes.drop_last(),
            i,
            spec_request_for(nodes.last().addr->Parsed_0)@,
        ),
    decreases nodes.len() - i,
{
    let d = nodes.drop_last();
    if i + 1 < nodes.len() - 1 {
        assert(d[i + 1] == nodes[i + 1]);
        lemma_asked_by_top_socks5(nodes, i + 1, r);
    }
}

proof fn lemma_first_target_top_injector(nodes: Seq<NodeConfig>, i: int, req: LinkRequest)
    requires
        nodes.len() >= 1,
        0 <= i <= nodes.len() - 1,
        !has_type(nodes.last(), "socks5"@),
    ensures
        first_target(nodes, i, req) == first_target(nodes.drop_last(), i, req),
    decreases nodes.len() - i,
{
    let d = nodes.drop_last();
    if i < nodes.len() - 1 {
        assert(d[i] == nodes[i]);
        lemma_first_target_top_injector(nodes, i + 1, req);
    } else {
        assert(nodes[i] == nodes.last());
        assert(first_target(nodes, i + 1, req) == spec_socket_addr_of(req));
    }
}

proof fn lemma_first_target_top_socks5(nodes: Seq<NodeConfig>, i: int, req: LinkRequest)
    requires
        nodes.len() >= 1,
        0 <= i <= nodes.len() - 1,
        has_type(nodes.last(), "socks5"@),
    ensures
        first_target(nodes, i, req) == first_target(
            nodes.drop_last(),
            i,
            spec_request_for(nodes.last().addr->Parsed_0),
        ),
    decreases nodes.len() - i,
{
    let d = nodes.drop_last();
    lemma_socket_addr_roundtrip(nodes.last().addr->Parsed_0);
    if i < nodes.len() - 1 {
        assert(d[i] == nodes[i]);
        lemma_first_target_top_socks5(nodes, i + 1, req);
    }
}

/// How a loaded output chain opens a connection for any request. The TCP
/// connection goes to the first SOCKS5 node's proxy, or to the requested
/// address where there is no SOCKS5 node. Then each node after the TCP
/// node, in the order configured, adds one step: a header injector writes
/// its injection, and a SOCKS5 node asks its proxy for the next SOCKS5
/// node's proxy, the last one for the request itself (proxy chaining).
pub proof fn lemma_output_chain_plan(nodes: Seq<NodeConfig>, req: LinkRequest)
    requires
        nodes.len() > 0,
        has_type(nodes[0], "tcp"@),
        forall|i: int| 1 <= i < nodes.len() ==> output_layer(#[trigger] nodes[i]),
    ensures
        spec_connect(spec_output_chain(nodes).unwrap(), req) == match first_target(nodes, 1, req) {
            Ok(target) => Ok::<SpecConnectPlan, ProtocolError>(
                SpecConnectPlan {
                    target,
                    steps: Seq::new((nodes.len() - 1) as nat, |k: int| step_of(nodes, k + 1, req@)),
                },
            ),
            Err(e) => Err(e),
        },
    decreases nodes.len(),
{
    lemma_names_differ();
    let n = nodes.len();
    let d = nodes.drop_last();
    if n == 1 {
        assert(d.len() == 0);
        assert(Seq::new(0, |k: int| step_of(nodes, k + 1, req@)) =~= Seq::<SpecOutputStep>::empty());
    } else {
        let last = nodes[n - 1];
        assert(output_layer(last));
        assert(d[0] == nodes[0]);
        assert forall|i: int| 1 <= i < d.len() implies output_layer(#[trigger] d[i]) by {
            assert(d[i] == nodes[i]);
        }
        if has_type(last, "socks5"@) {
            let a = last.addr->Parsed_0;
            let req2 = spec_request_for(a);
            lemma_output_chain_plan(d, req2);
            lemma_first_target_top_socks5(nodes, 1, req);
            assert forall|j: int| 1 <= j < n - 1 implies #[trigger] step_of(nodes, j, req@) == step_of(
                d,
                j,
                req2@,
            ) by {
                let k = j - 1;
                assert(d[k + 1] == nodes[k + 1]);
                lemma_asked_by_top_socks5(nodes, k + 1, req@);
            }
            if let Ok(t) = first_target(nodes, 1, req) {
                assert(Seq::new((n - 1) as nat, |k: int| step_of(nodes, k + 1, req@)) =~= Seq::new(
                    (n - 2) as nat,
                    |k: int| step_of(d, k + 1, req2@),
                ).push(SpecOutputStep::Socks5(req@)));
            }
        } else {
            lemma_output_chain_plan(d, req);
            lemma_first_target_top_injector(nodes, 1, req);
            assert forall|j: int| 1 <= j < n - 1 implies #[trigger] step_of(nodes, j, req@) == step_of(
                d,
                j,
                req@,
            ) by {
                let k = j - 1;
                assert(d[k + 1] == nodes[k + 1]);
                lemma_asked_by_top_injector(nodes, k + 1, req@);
            }
            if let Ok(t) = first_target(nodes, 1, req) {
                assert(Seq::new((n - 1) as nat, |k: int| step_of(nodes, k + 1, req@)) =~= Seq::new(
                    (n - 2) as nat,
                    |k: int| step_of(d, k + 1, req@),
                ).push(SpecOutputStep::Inject(last.injection.unwrap()@)));
            }
        }
    }
}

} // verus!
