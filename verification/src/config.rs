use vstd::prelude::*;
use vstd::string::StringExecFns;

use crate::addr::SocketAddress;
use crate::chain::{
    input_grounded, input_wf, output_wf, ChainNode, ChainNodeInfo, HeaderInjectorChainNode, InputChainNode,
    OutputChainNode, Socks5InputChainNode, Socks5OutputChainNode, TcpOutputChainNode,
};

verus! {

/// A socket address field of the configuration: absent, present but not a
/// socket address, or a socket address.
#[derive(Debug, Clone, Copy, PartialEq, Eq)]
pub enum AddrField {
    Missing,
    Invalid,
    Parsed(SocketAddress),
}

/// One node of a chain, as the configuration describes it: the string
/// fields that it has, and its address field.
#[derive(Debug, Clone, PartialEq, Eq)]
pub struct NodeConfig {
    pub name: Option<String>,
    pub node_type: Option<String>,
    pub injection: Option<Vec<u8>>,
    pub addr: AddrField,
}

/// A chain set, as the configuration describes it: its input and output
/// chains (where they are arrays) and the address to listen on.
#[derive(Debug, Clone, PartialEq, Eq)]
pub struct ChainConfig {
    pub input: Option<Vec<NodeConfig>>,
    pub output: Option<Vec<NodeConfig>>,
    pub addr: AddrField,
}

/// Why a configuration cannot be loaded.
#[derive(Debug, Clone, Copy, PartialEq, Eq, Structural)]
pub enum ConfigError {
    /// The `input` field is not an array.
    InputNotArray,
    /// The `output` field is not an array.
    OutputNotArray,
    /// A node has no `type`.
    MissingType,
    /// A node's type is not one of those that its chain knows.
    UnknownNode,
    /// A header injector has no `injection`.
    MissingInjection,
    /// An address field is absent.
    MissingAddr,
    /// An address field is not a socket address.
    InvalidAddr,
    /// A SOCKS5 node stands first in the output chain.
    Socks5First,
    /// A header injector stands first in the output chain.
    HeaderInjectorFirst,
    /// A TCP node stands elsewhere than first in the output chain.
    TcpNotFirst,
    /// A chain has no node.
    EmptyChain,
}

// ---------------------------------------------------------------------
// What a configuration must satisfy
// ---------------------------------------------------------------------
/// The type of a node that has one.
pub open spec fn node_type_of(node: NodeConfig) -> Seq<char> {
    node.node_type.unwrap()@
}

/// Why a node cannot stand in the input chain, if it cannot.
pub open spec fn input_node_error(node: NodeConfig) -> Option<ConfigError> {
    if node.node_type is None {
        Some(ConfigError::MissingType)
    } else if node_type_of(node) == "socks5_server"@ {
        None
    } else if node_type_of(node) == "header_injector"@ {
        if node.injection is None {
            Some(ConfigError::MissingInjection)
        } else {
            None
        }
    } else {
        Some(ConfigError::UnknownNode)
    }
}

/// Why a node cannot stand in the output chain, first or after another
/// node, if it cannot.
pub open spec fn output_node_error(node: NodeConfig, first: bool) -> Option<ConfigError> {
    if node.node_type is None {
        Some(ConfigError::MissingType)
    } else if node_type_of(node) == "socks5"@ {
        if first {
            Some(ConfigError::Socks5First)
        } else {
            match node.addr {
                AddrField::Missing => Some(ConfigError::MissingAddr),
                AddrField::Invalid => Some(ConfigError::InvalidAddr),
                AddrField::Parsed(_) => None,
            }
        }
    } else if node_type_of(node) == "header_injector"@ {
        if first {
            Some(ConfigError::HeaderInjectorFirst)
        } else if node.injection is None {
            Some(ConfigError::MissingInjection)
        } else {
            None
        }
    } else if node_type_of(node) == "tcp"@ {
        if first {
            None
        } else {
            Some(ConfigError::TcpNotFirst)
        }
    } else {
        Some(ConfigError::UnknownNode)
    }
}

/// The error of the first node that cannot stand in the input chain.
pub open spec fn input_nodes_error(nodes: Seq<NodeConfig>) -> Option<ConfigError>
    decreases nodes.len(),
{
    if nodes.len() == 0 {
        None
    } else {
        match input_nodes_error(nodes.drop_last()) {
            Some(e) => Some(e),
            None => input_node_error(nodes.last()),
        }
    }
}

/// The error of the first node that cannot stand where it stands in the
/// output chain.
pub open spec fn output_nodes_error(nodes: Seq<NodeConfig>) -> Option<ConfigError>
    decreases nodes.len(),
{
    if nodes.len() == 0 {
        None
    } else {
        match output_nodes_error(nodes.drop_last()) {
            Some(e) => Some(e),
            None => output_node_error(nodes.last(), nodes.len() == 1),
        }
    }
}

/// Why a list of nodes is no input chain, if it is none.
pub open spec fn input_chain_error(nodes: Seq<NodeConfig>) -> Option<ConfigError> {
    match input_nodes_error(nodes) {
        Some(e) => Some(e),
        None => if nodes.len() == 0 {
            Some(ConfigError::EmptyChain)
        } else {
            None
        },
    }
}

/// Why a list of nodes is no output chain, if it is none.
pub open spec fn output_chain_error(nodes: Seq<NodeConfig>) -> Option<ConfigError> {
    match output_nodes_error(nodes) {
        Some(e) => Some(e),
        None => if nodes.len() == 0 {
            Some(ConfigError::EmptyChain)
        } else {
            None
        },
    }
}

/// Why an address field holds no socket address, if it holds none.
pub open spec fn addr_field_error(addr: AddrField) -> Option<ConfigError> {
    match addr {
        AddrField::Missing => Some(ConfigError::MissingAddr),
        AddrField::Invalid => Some(ConfigError::InvalidAddr),
        AddrField::Parsed(_) => None,
    }
}

/// Why a configuration cannot be loaded, if it cannot: the first problem
/// met when loading the input chain, then the output chain, then the
/// address.
pub open spec fn chain_config_error(config: ChainConfig) -> Option<ConfigError> {
    match config.input {
        None => Some(ConfigError::InputNotArray),
        Some(input) => match input_chain_error(input@) {
            Some(e) => Some(e),
            None => match config.output {
                None => Some(ConfigError::OutputNotArray),
                Some(output) => match output_chain_error(output@) {
                    Some(e) => Some(e),
                    None => addr_field_error(config.addr),
                },
            },
        },
    }
}

// ---------------------------------------------------------------------
// What a configuration loads into
// ---------------------------------------------------------------------
/// The input chain after one more node: a SOCKS5 server starts the chain
/// anew; a header injector takes the chain so far as its parent.
pub open spec fn input_step(node: NodeConfig, parent: Option<InputChainNode>) -> InputChainNode {
    if node_type_of(node) == "socks5_server"@ {
        InputChainNode::Socks5(Socks5InputChainNode {  })
    } else {
        InputChainNode::HeaderInjector(
            HeaderInjectorChainNode {
                node_info: ChainNodeInfo {
                    name: node.name,
                    parent: match parent {
                        Some(p) => Some(ChainNode::Input(Box::new(p))),
                        None => None,
                    },
                },
                injection: node.injection.unwrap(),
            },
        )
    }
}

/// The output chain after one more node: a SOCKS5 node or a header
/// injector takes the chain so far as its parent; a TCP node starts it.
pub open spec fn output_step(node: NodeConfig, parent: Option<OutputChainNode>) -> OutputChainNode {
    if node_type_of(node) == "socks5"@ {
        OutputChainNode::Socks5(
            Socks5OutputChainNode {
                proxy_addr: node.addr->Parsed_0,
                parent: Box::new(parent.unwrap()),
            },
        )
    } else if node_type_of(node) == "header_injector"@ {
        OutputChainNode::HeaderInjector(
            HeaderInjectorChainNode {
                node_info: ChainNodeInfo {
                    name: node.name,
                    parent: Some(ChainNode::Output(Box::new(parent.unwrap()))),
                },
                injection: node.injection.unwrap(),
            },
        )
    } else {
        OutputChainNode::Tcp(TcpOutputChainNode { node_info: ChainNodeInfo { name: node.name, parent: None } })
    }
}

/// The input chain that a list of nodes builds, node by node.
pub open spec fn spec_input_chain(nodes: Seq<NodeConfig>) -> Option<InputChainNode>
    decreases nodes.len(),
{
    if nodes.len() == 0 {
        None
    } else {
        Some(input_step(nodes.last(), spec_input_chain(nodes.drop_last())))
    }
}

/// The output chain that a list of nodes builds, node by node.
pub open spec fn spec_output_chain(nodes: Seq<NodeConfig>) -> Option<OutputChainNode>
    decreases nodes.len(),
{
    if nodes.len() == 0 {
        None
    } else {
        Some(output_step(nodes.last(), spec_output_chain(nodes.drop_last())))
    }
}

/// Whether a list of nodes holds a SOCKS5 server.
pub open spec fn has_socks5_server(nodes: Seq<NodeConfig>) -> bool {
    exists|i: int|
        0 <= i < nodes.len() && (#[trigger] nodes[i]).node_type is Some && node_type_of(nodes[i])
            == "socks5_server"@
}

// ---------------------------------------------------------------------
// Checking and loading
// ---------------------------------------------------------------------
/// Whether a node's type is the given name.
fn type_is(node_type: &String, name: &str) -> (res: bool)
    ensures
        res == (node_type@ == name@),
{
    let name = String::from_str(name);
    *node_type == name
}

/// Checks one node of the input chain.
fn check_input_node(node: &NodeConfig) -> (res: Option<ConfigError>)
    ensures
        res == input_node_error(*node),
{
    match &node.node_type {
        None => Some(ConfigError::MissingType),
        Some(t) => {
            if type_is(t, "socks5_server") {
                None
            } else if type_is(t, "header_injector") {
                if node.injection.is_none() {
                    Some(ConfigError::MissingInjection)
                } else {
                    None
                }
            } else {
                Some(ConfigError::UnknownNode)
            }
        },
    }
}

/// Checks one node of the output chain, first or not.
fn check_output_node(node: &NodeConfig, first: bool) -> (res: Option<ConfigError>)
    ensures
        res == output_node_error(*node, first),
{
    match &node.node_type {
        None => Some(ConfigError::MissingType),
        Some(t) => {
            if type_is(t, "socks5") {
                if first {
                    Some(ConfigError::Socks5First)
                } else {
                    match node.addr {
                        AddrField::Missing => Some(ConfigError::MissingAddr),
                        AddrField::Invalid => Some(ConfigError::InvalidAddr),
                        AddrField::Parsed(_) => None,
                    }
                }
            } else if type_is(t, "header_injector") {
                if first {
                    Some(ConfigError::HeaderInjectorFirst)
                } else if node.injection.is_none() {
                    Some(ConfigError::MissingInjection)
                } else {
                    None
                }
            } else if type_is(t, "tcp") {
                if first {
                    None
                } else {
                    Some(ConfigError::TcpNotFirst)
                }
            } else {
                Some(ConfigError::UnknownNode)
            }
        },
    }
}

/// Checks a list of nodes as an input chain.
pub fn check_input_chain(nodes: &Vec<NodeConfig>) -> (res: Result<(), ConfigError>)
    ensures
        res == match input_chain_error(nodes@) {
            Some(e) => Err::<(), ConfigError>(e),
            None => Ok(()),
        },
{
    let mut i: usize = 0;
    while i < nodes.len()
        invariant
            i <= nodes@.len(),
            input_nodes_error(nodes@.subrange(0, i as int)) is None,
        decreases nodes@.len() - i,
    {
        assert(nodes@.subrange(0, i + 1).drop_last() =~= nodes@.subrange(0, i as int));
        match check_input_node(&nodes[i]) {
            Some(e) => {
                proof {
                    lemma_input_nodes_error_extends(nodes@, (i + 1) as int);
                }
                return Err(e);
            },
            None => {},
        }
        i = i + 1;
    }
    assert(nodes@.subrange(0, nodes@.len() as int) =~= nodes@);
    if nodes.len() == 0 {
        return Err(ConfigError::EmptyChain);
    }
    Ok(())
}

/// Where a prefix of the nodes has an error, the whole list has that error.
proof fn lemma_input_nodes_error_extends(nodes: Seq<NodeConfig>, k: int)
    requires
        0 <= k <= nodes.len(),
        input_nodes_error(nodes.subrange(0, k)) is Some,
    ensures
        input_nodes_error(nodes) == input_nodes_error(nodes.subrange(0, k)),
    decreases nodes.len() - k,
{
    if k < nodes.len() {
        assert(nodes.subrange(0, k + 1).drop_last() =~= nodes.subrange(0, k));
        lemma_input_nodes_error_extends(nodes, k + 1);
    } else {
        assert(nodes.subrange(0, k) =~= nodes);
    }
}

/// Where a prefix of the nodes has an error, the whole list has that error.
proof fn lemma_output_nodes_error_extends(nodes: Seq<NodeConfig>, k: int)
    requires
        0 <= k <= nodes.len(),
        output_nodes_error(nodes.subrange(0, k)) is Some,
    ensures
        output_nodes_error(nodes) == output_nodes_error(nodes.subrange(0, k)),
    decreases nodes.len() - k,
{
    if k < nodes.len() {
        assert(nodes.subrange(0, k + 1).drop_last() =~= nodes.subrange(0, k));
        lemma_output_nodes_error_extends(nodes, k + 1);
    } else {
        assert(nodes.subrange(0, k) =~= nodes);
    }
}

/// Checks a list of nodes as an output chain.
pub fn check_output_chain(nodes: &Vec<NodeConfig>) -> (res: Result<(), ConfigError>)
    ensures
        res == match output_chain_error(nodes@) {
            Some(e) => Err::<(), ConfigError>(e),
            None => Ok(()),
        },
{
    let mut i: usize = 0;
    while i < nodes.len()
        invariant
            i <= nodes@.len(),
            output_nodes_error(nodes@.subrange(0, i as int)) is None,
        decreases nodes@.len() - i,
    {
        assert(nodes@.subrange(0, i + 1).drop_last() =~= nodes@.subrange(0, i as int));
        match check_output_node(&nodes[i], i == 0) {
            Some(e) => {
                proof {
                    lemma_output_nodes_error_extends(nodes@, (i + 1) as int);
                }
                return Err(e);
            },
            None => {},
        }
        i = i + 1;
    }
    assert(nodes@.subrange(0, nodes@.len() as int) =~= nodes@);
    if nodes.len() == 0 {
        return Err(ConfigError::EmptyChain);
    }
    Ok(())
}

/// Builds the input chain that a valid list of nodes describes.
///
/// The chain holds a SOCKS5 server, and so can serve clients, exactly
/// when one of the nodes is a SOCKS5 server.
pub fn load_input_chain(chain: Vec<NodeConfig>) -> (res: InputChainNode)
    requires
        input_chain_error(chain@) is None,
    ensures
        spec_input_chain(chain@) == Some(res),
        input_wf(res),
        input_grounded(res) == has_socks5_server(chain@),
{
    let ghost all = chain@;
    assert(all.len() == chain.len());
    let mut chain = chain;
    let mut parent: Option<InputChainNode> = None;
    let mut i: usize = 0;
    proof {
        lemma_input_chain_valid_nodes(all);
    }
    while chain.len() > 0
        invariant
            all.len() <= usize::MAX,
            i + chain@.len() == all.len(),
            chain@ == all.subrange(i as int, all.len() as int),
            parent == spec_input_chain(all.subrange(0, i as int)),
            forall|j: int| 0 <= j < all.len() ==> #[trigger] input_node_error(all[j]) is None,
            parent is Some ==> input_wf(parent.unwrap()),
            parent is Some ==> (input_grounded(parent.unwrap()) == has_socks5_server(
                all.subrange(0, i as int),
            )),
            parent is None ==> i == 0,
        decreases chain@.len(),
    {
        let node = chain.remove(0);
        assert(node == all[i as int]);
        assert(all.subrange(0, i + 1).drop_last() =~= all.subrange(0, i as int));
        assert(all.subrange(0, i + 1).last() == node);
        assert(input_node_error(all[i as int]) is None);
        let node_type = node.node_type.unwrap();
        if type_is(&node_type, "socks5_server") {
            parent = Some(InputChainNode::Socks5(Socks5InputChainNode {  }));
        } else {
            let wrapped = match parent {
                Some(p) => Some(ChainNode::Input(Box::new(p))),
                None => None,
            };
            parent = Some(
                InputChainNode::HeaderInjector(
                    HeaderInjectorChainNode {
                        node_info: ChainNodeInfo { name: node.name, parent: wrapped },
                        injection: node.injection.unwrap(),
                    },
                ),
            );
        }
        proof {
            let pre = all.subrange(0, i as int);
            let post = all.subrange(0, i + 1);
            assert(forall|j: int| 0 <= j < pre.len() ==> post[j] == #[trigger] pre[j]);
            if has_socks5_server(pre) {
                let j = choose|j: int|
                    0 <= j < pre.len() && (#[trigger] pre[j]).node_type is Some && node_type_of(
                        pre[j],
                    ) == "socks5_server"@;
                assert(post[j] == pre[j]);
            }
            if node_type_of(node) == "socks5_server"@ {
                assert(post[i as int] == node);
            }
            if has_socks5_server(post) && node_type_of(node) != "socks5_server"@ {
                let j = choose|j: int|
                    0 <= j < post.len() && (#[trigger] post[j]).node_type is Some && node_type_of(
                        post[j],
                    ) == "socks5_server"@;
                assert(j != i);
                assert(pre[j] == post[j]);
            }
        }
        i = i + 1;
    }
    assert(all.subrange(0, i as int) =~= all);
    parent.unwrap()
}

/// Every node of a valid input chain can stand in it, and there is one.
proof fn lemma_input_chain_valid_nodes(nodes: Seq<NodeConfig>)
    requires
        input_chain_error(nodes) is None,
    ensures
        nodes.len() > 0,
        forall|j: int| 0 <= j < nodes.len() ==> #[trigger] input_node_error(nodes[j]) is None,
    decreases nodes.len(),
{
    lemma_input_nodes_valid(nodes);
}

proof fn lemma_input_nodes_valid(nodes: Seq<NodeConfig>)
    requires
        input_nodes_error(nodes) is None,
    ensures
        forall|j: int| 0 <= j < nodes.len() ==> #[trigger] input_node_error(nodes[j]) is None,
    decreases nodes.len(),
{
    if nodes.len() > 0 {
        lemma_input_nodes_valid(nodes.drop_last());
        assert forall|j: int| 0 <= j < nodes.len() implies #[trigger] input_node_error(
            nodes[j],
        ) is None by {
            if j < nodes.len() - 1 {
                assert(nodes.drop_last()[j] == nodes[j]);
            }
        }
    }
}

proof fn lemma_output_nodes_valid(nodes: Seq<NodeConfig>)
    requires
        output_nodes_error(nodes) is None,
    ensures
        forall|j: int|
            0 <= j < nodes.len() ==> output_node_error(#[trigger] nodes[j], j == 0) is None,
    decreases nodes.len(),
{
    if nodes.len() > 0 {
        lemma_output_nodes_valid(nodes.drop_last());
        assert forall|j: int| 0 <= j < nodes.len() implies output_node_error(
            #[trigger] nodes[j],
            j == 0,
        ) is None by {
            if j < nodes.len() - 1 {
                assert(nodes.drop_last()[j] == nodes[j]);
            }
        }
    }
}

/// Builds the output chain that a valid list of nodes describes; it is
/// well formed.
pub fn load_output_chain(chain: Vec<NodeConfig>) -> (res: OutputChainNode)
    requires
        output_chain_error(chain@) is None,
    ensures
        spec_output_chain(chain@) == Some(res),
        output_wf(res),
{
    let ghost all = chain@;
    assert(all.len() == chain.len());
    let mut chain = chain;
    let mut parent: Option<OutputChainNode> = None;
    let mut i: usize = 0;
    proof {
        lemma_output_nodes_valid(all);
    }
    while chain.len() > 0
        invariant
            all.len() <= usize::MAX,
            i + chain@.len() == all.len(),
            chain@ == all.subrange(i as int, all.len() as int),
            parent == spec_output_chain(all.subrange(0, i as int)),
            forall|j: int|
                0 <= j < all.len() ==> output_node_error(#[trigger] all[j], j == 0) is None,
            parent is Some ==> output_wf(parent.unwrap()),
            parent is None <==> i == 0,
        decreases chain@.len(),
    {
        let node = chain.remove(0);
        assert(node == all[i as int]);
        assert(all.subrange(0, i + 1).drop_last() =~= all.subrange(0, i as int));
        assert(all.subrange(0, i + 1).last() == node);
        assert(output_node_error(all[i as int], i == 0) is None);
        let node_type = node.node_type.unwrap();
        if type_is(&node_type, "socks5") {
            let proxy_addr = match node.addr {
                AddrField::Parsed(a) => a,
                _ => {
                    proof {
                        assert(false);
                    }
                    return parent.unwrap();
                },
            };
            parent = Some(
                OutputChainNode::Socks5(
                    Socks5OutputChainNode { proxy_addr, parent: Box::new(parent.unwrap()) },
                ),
            );
        } else if type_is(&node_type, "header_injector") {
            parent = Some(
                OutputChainNode::HeaderInjector(
                    HeaderInjectorChainNode {
                        node_info: ChainNodeInfo {
                            name: node.name,
                            parent: Some(ChainNode::Output(Box::new(parent.unwrap()))),
                        },
                        injection: node.injection.unwrap(),
                    },
                ),
            );
        } else {
            parent = Some(
                OutputChainNode::Tcp(
                    TcpOutputChainNode { node_info: ChainNodeInfo { name: node.name, parent: None } },
                ),
            );
        }
        i = i + 1;
    }
    assert(all.subrange(0, i as int) =~= all);
    parent.unwrap()
}

/// The chains of a proxy and the address it listens on.
#[derive(Debug)]
pub struct ChainSet {
    pub output_chain: OutputChainNode,
    pub input_chain: InputChainNode,
    pub address: SocketAddress,
}

impl ChainSet {
    /// Checks a configuration: the first problem that loading it would meet.
    pub fn check(config: &ChainConfig) -> (res: Result<(), ConfigError>)
        ensures
            res == match chain_config_error(*config) {
                Some(e) => Err::<(), ConfigError>(e),
                None => Ok(()),
            },
    {
        match &config.input {
            None => {
                return Err(ConfigError::InputNotArray);
            },
            Some(input) => {
                match check_input_chain(input) {
                    Err(e) => {
                        return Err(e);
                    },
                    Ok(()) => {},
                }
            },
        }
        match &config.output {
            None => {
                return Err(ConfigError::OutputNotArray);
            },
            Some(output) => {
                match check_output_chain(output) {
                    Err(e) => {
                        return Err(e);
                    },
                    Ok(()) => {},
                }
            },
        }
        match config.addr {
            AddrField::Missing => Err(ConfigError::MissingAddr),
            AddrField::Invalid => Err(ConfigError::InvalidAddr),
            AddrField::Parsed(_) => Ok(()),
        }
    }

    /// Loads a valid configuration: its input chain, its output chain and
    /// its address.
    pub fn load(chain_config: ChainConfig) -> (res: ChainSet)
        requires
            chain_config_error(chain_config) is None,
        ensures
            spec_input_chain(chain_config.input.unwrap()@) == Some(res.input_chain),
            spec_output_chain(chain_config.output.unwrap()@) == Some(res.output_chain),
            chain_config.addr == AddrField::Parsed(res.address),
            input_wf(res.input_chain),
            input_grounded(res.input_chain) == has_socks5_server(chain_config.input.unwrap()@),
            output_wf(res.output_chain),
    {
        let input_chain = load_input_chain(chain_config.input.unwrap());
        let output_chain = load_output_chain(chain_config.output.unwrap());
        let address = match chain_config.addr {
            AddrField::Parsed(a) => a,
            _ => {
                proof {
                    assert(false);
                }
                SocketAddress::V4 { ip: [0, 0, 0, 0], port: 0 }
            },
        };
        ChainSet { output_chain, input_chain, address }
    }
}

} // verus!
