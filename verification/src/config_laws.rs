use vstd::prelude::*;

use crate::config::{
    input_chain_error, input_node_error, input_nodes_error, output_chain_error, output_node_error,
    output_nodes_error, AddrField, ConfigError, NodeConfig,
};

verus! {

/// A node whose type is the given name.
pub open spec fn has_type(node: NodeConfig, name: Seq<char>) -> bool {
    node.node_type is Some && node.node_type.unwrap()@ == name
}

/// A node that can stand after the first node of an output chain: a SOCKS5
/// node with a socket address, or a header injector with an injection.
pub open spec fn output_layer(node: NodeConfig) -> bool {
    ||| has_type(node, "socks5"@) && node.addr is Parsed
    ||| has_type(node, "header_injector"@) && node.injection is Some
}

/// A node that can stand in an input chain: a SOCKS5 server, or a header
/// injector with an injection.
pub open spec fn input_layer(node: NodeConfig) -> bool {
    ||| has_type(node, "socks5_server"@)
    ||| has_type(node, "header_injector"@) && node.injection is Some
}

pub proof fn lemma_names_differ()
    ensures
        "tcp"@ != "socks5"@,
        "tcp"@ != "header_injector"@,
        "socks5"@ != "header_injector"@,
        "socks5_server"@ != "header_injector"@,
{
    reveal_strlit("tcp");
    reveal_strlit("socks5");
    reveal_strlit("header_injector");
    reveal_strlit("socks5_server");
    assert("tcp"@.len() == 3);
    assert("socks5"@.len() == 6);
    assert("header_injector"@.len() == 15);
    assert("socks5_server"@.len() == 13);
}

proof fn lemma_output_node_ok(node: NodeConfig, first: bool)
    ensures
        output_node_error(node, first) is None <==> (if first {
            has_type(node, "tcp"@)
        } else {
            output_layer(node)
        }),
{
    lemma_names_differ();
}

proof fn lemma_input_node_ok(node: NodeConfig)
    ensures
        input_node_error(node) is None <==> input_layer(node),
{
    lemma_names_differ();
}

proof fn lemma_output_nodes_ok(nodes: Seq<NodeConfig>)
    ensures
        output_nodes_error(nodes) is None <==> forall|i: int|
            0 <= i < nodes.len() ==> output_node_error(#[trigger] nodes[i], i == 0) is None,
    decreases nodes.len(),
{
    if nodes.len() > 0 {
        let d = nodes.drop_last();
        lemma_output_nodes_ok(d);
        if output_nodes_error(nodes) is None {
            assert forall|i: int| 0 <= i < nodes.len() implies output_node_error(
                #[trigger] nodes[i],
                i == 0,
            ) is None by {
                if i < nodes.len() - 1 {
                    assert(d[i] == nodes[i]);
                }
            }
        } else if output_nodes_error(d) is Some {
            let i = choose|i: int| 0 <= i < d.len() && !(output_node_error(#[trigger] d[i], i == 0) is None);
            assert(d[i] == nodes[i]);
        } else {
            let i = nodes.len() - 1;
            assert(!(output_node_error(nodes[i], i == 0) is None));
        }
    }
}

proof fn lemma_input_nodes_ok(nodes: Seq<NodeConfig>)
    ensures
        input_nodes_error(nodes) is None <==> forall|i: int|
            0 <= i < nodes.len() ==> input_node_error(#[trigger] nodes[i]) is None,
    decreases nodes.len(),
{
    if nodes.len() > 0 {
        let d = nodes.drop_last();
        lemma_input_nodes_ok(d);
        if input_nodes_error(nodes) is None {
            assert forall|i: int| 0 <= i < nodes.len() implies input_node_error(#[trigger] nodes[i])
                is None by {
                if i < nodes.len() - 1 {
                    assert(d[i] == nodes[i]);
                }
            }
        } else if input_nodes_error(d) is Some {
            let i = choose|i: int| 0 <= i < d.len() && !(input_node_error(#[trigger] d[i]) is None);
            assert(d[i] == nodes[i]);
        } else {
            let i = nodes.len() - 1;
            assert(!(input_node_error(nodes[i]) is None));
        }
    }
}

/// A list of nodes is an output chain exactly when it has nodes, the first
/// is a TCP node, and every other is a SOCKS5 node with a socket address
/// or a header injector with an injection; it is refused as empty exactly
/// when it has no node. In particular a lone TCP node is an output chain.
pub proof fn lemma_output_chain_accepted(nodes: Seq<NodeConfig>)
    ensures
        output_chain_error(nodes) is None <==> nodes.len() > 0 && has_type(nodes[0], "tcp"@)
            && forall|i: int| 1 <= i < nodes.len() ==> output_layer(#[trigger] nodes[i]),
        output_chain_error(nodes) == Some(ConfigError::EmptyChain) <==> nodes.len() == 0,
{
    lemma_output_nodes_ok(nodes);
    assert forall|i: int| 0 <= i < nodes.len() implies (output_node_error(#[trigger] nodes[i], i == 0)
        is None <==> (if i == 0 {
        has_type(nodes[i], "tcp"@)
    } else {
        output_layer(nodes[i])
    })) by {
        lemma_output_node_ok(nodes[i], i == 0);
    }
    if output_nodes_error(nodes) is None && nodes.len() > 0 {
        assert(output_node_error(nodes[0], true) is None);
    }
    if output_nodes_error(nodes) is Some {
        let i = choose|i: int| 0 <= i < nodes.len() && !(output_node_error(#[trigger] nodes[i], i == 0) is None);
        lemma_output_node_never_empty(nodes[i], i == 0);
        lemma_output_nodes_first_error(nodes);
    }
}

proof fn lemma_output_node_never_empty(node: NodeConfig, first: bool)
    ensures
        output_node_error(node, first) != Some(ConfigError::EmptyChain),
{
}

proof fn lemma_output_nodes_first_error(nodes: Seq<NodeConfig>)
    ensures
        output_nodes_error(nodes) != Some(ConfigError::EmptyChain),
    decreases nodes.len(),
{
    if nodes.len() > 0 {
        lemma_output_nodes_first_error(nodes.drop_last());
        lemma_output_node_never_empty(nodes.last(), nodes.len() == 1);
    }
}

proof fn lemma_input_nodes_first_error(nodes: Seq<NodeConfig>)
    ensures
        input_nodes_error(nodes) != Some(ConfigError::EmptyChain),
    decreases nodes.len(),
{
    if nodes.len() > 0 {
        lemma_input_nodes_first_error(nodes.drop_last());
    }
}

/// A list of nodes is an input chain exactly when it has nodes and every
/// one is a SOCKS5 server or a header injector with an injection; it is
/// refused as empty exactly when it has no node. In particular a lone
/// SOCKS5 server is an input chain.
pub proof fn lemma_input_chain_accepted(nodes: Seq<NodeConfig>)
    ensures
        input_chain_error(nodes) is None <==> nodes.len() > 0 && forall|i: int|
            0 <= i < nodes.len() ==> input_layer(#[trigger] nodes[i]),
        input_chain_error(nodes) == Some(ConfigError::EmptyChain) <==> nodes.len() == 0,
{
    lemma_input_nodes_ok(nodes);
    lemma_input_nodes_first_error(nodes);
    assert forall|i: int| 0 <= i < nodes.len() implies (input_node_error(#[trigger] nodes[i]) is None
        <==> input_layer(nodes[i])) by {
        lemma_input_node_ok(nodes[i]);
    }
}

} // verus!
