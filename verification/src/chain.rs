use vstd::prelude::*;

use crate::addr::{spec_request_for, spec_socket_addr_of, LinkRequest, SocketAddress, SpecLinkRequest};
use crate::error::ProtocolError;
use crate::socks5::{send_response, spec_response_bytes, ReplyType};

verus! {

// ---------------------------------------------------------------------
// Chain nodes
// ---------------------------------------------------------------------
/// A node of either chain, as the parent of a header injector.
#[derive(Debug)]
pub enum ChainNode {
    Input(Box<InputChainNode>),
    Output(Box<OutputChainNode>),
}

/// What every configured node knows of itself.
#[derive(Debug)]
pub struct ChainNodeInfo {
    pub name: Option<String>,
    pub parent: Option<ChainNode>,
}

/// A node of the input chain, which turns an incoming connection into a
/// link request (server side).
#[derive(Debug)]
pub enum InputChainNode {
    Socks5(Socks5InputChainNode),
    HeaderInjector(HeaderInjectorChainNode),
}

/// A node of the output chain, which opens a connection for a link request.
#[derive(Debug)]
pub enum OutputChainNode {
    Tcp(TcpOutputChainNode),
    Socks5(Socks5OutputChainNode),
    HeaderInjector(HeaderInjectorChainNode),
}

/// Opens a plain TCP connection to the requested address.
#[derive(Debug)]
pub struct TcpOutputChainNode {
    pub node_info: ChainNodeInfo,
}

/// Injects a fake header before the stream of its parent (output chain), or
/// strips it away before handing the stream to its parent (input chain).
#[derive(Debug)]
pub struct HeaderInjectorChainNode {
    pub node_info: ChainNodeInfo,
    pub injection: Vec<u8>,
}

/// Connects through a SOCKS5 proxy, which its parent connects to.
#[derive(Debug)]
pub struct Socks5OutputChainNode {
    pub proxy_addr: SocketAddress,
    pub parent: Box<OutputChainNode>,
}

/// Serves SOCKS5 clients.
#[derive(Debug)]
pub struct Socks5InputChainNode {}

/// An output chain is well formed when it ends in a TCP node and every
/// header injector in it has an output node as its parent.
pub open spec fn output_wf(node: OutputChainNode) -> bool
    decreases node,
{
    match node {
        OutputChainNode::Tcp(_) => true,
        OutputChainNode::Socks5(s) => output_wf(*s.parent),
        OutputChainNode::HeaderInjector(h) => match h.node_info.parent {
            Some(ChainNode::Output(p)) => output_wf(*p),
            _ => false,
        },
    }
}

/// An input chain is grounded when it ends in a SOCKS5 server and every
/// header injector in it has an input node as its parent.
pub open spec fn input_grounded(node: InputChainNode) -> bool
    decreases node,
{
    match node {
        InputChainNode::Socks5(_) => true,
        InputChainNode::HeaderInjector(h) => match h.node_info.parent {
            Some(ChainNode::Input(p)) => input_grounded(*p),
            _ => false,
        },
    }
}

/// An input chain is well formed when every header injector in it has an
/// input node as its parent, or none.
pub open spec fn input_wf(node: InputChainNode) -> bool
    decreases node,
{
    match node {
        InputChainNode::Socks5(_) => true,
        InputChainNode::HeaderInjector(h) => match h.node_info.parent {
            Some(ChainNode::Input(p)) => input_wf(*p),
            Some(ChainNode::Output(_)) => false,
            None => true,
        },
    }
}

/// The lengths of the headers that an input chain strips from a new
/// connection, in the order in which they arrive, before the SOCKS5
/// server at its end reads the client's greeting. Where the chain ends in a
/// header injector without a parent, the headers above it are stripped
/// and that injector strips nothing: it has no one to hand the connection
/// to.
pub open spec fn spec_headers_to_strip(node: InputChainNode) -> Seq<usize>
    decreases node,
{
    match node {
        InputChainNode::Socks5(_) => Seq::empty(),
        InputChainNode::HeaderInjector(h) => match h.node_info.parent {
            Some(ChainNode::Input(p)) => seq![h.injection@.len() as usize] + spec_headers_to_strip(*p),
            _ => Seq::empty(),
        },
    }
}

/// One step that follows the opening of the TCP connection at the end of
/// an output chain.
#[derive(Debug, Clone, PartialEq, Eq)]
pub enum OutputStep {
    /// Write these bytes.
    Inject(Vec<u8>),
    /// Ask the SOCKS5 proxy at the other end for this link.
    Socks5(LinkRequest),
}

/// The mathematical value of an [`OutputStep`].
pub enum SpecOutputStep {
    Inject(Seq<u8>),
    Socks5(SpecLinkRequest),
}

impl View for OutputStep {
    type V = SpecOutputStep;

    open spec fn view(&self) -> SpecOutputStep {
        match self {
            OutputStep::Inject(b) => SpecOutputStep::Inject(b@),
            OutputStep::Socks5(r) => SpecOutputStep::Socks5(r@),
        }
    }
}

/// How an output chain opens a connection: the TCP connection to open,
/// then the steps to take on it, in order.
#[derive(Debug, Clone, PartialEq, Eq)]
pub struct ConnectPlan {
    pub target: SocketAddress,
    pub steps: Vec<OutputStep>,
}

/// The mathematical value of a [`ConnectPlan`].
pub struct SpecConnectPlan {
    pub target: SocketAddress,
    pub steps: Seq<SpecOutputStep>,
}

impl View for ConnectPlan {
    type V = SpecConnectPlan;

    open spec fn view(&self) -> SpecConnectPlan {
        SpecConnectPlan { target: self.target, steps: self.steps@.map_values(|s: OutputStep| s@) }
    }
}

/// The plan by which an output chain opens a connection for a request.
///
/// A TCP node connects to the requested address; a header injector has
/// its parent connect, then writes its header; a SOCKS5 node has its
/// parent connect to the proxy, then asks the proxy for the request.
/// (Only well-formed chains are planned for; a header injector without an
/// output parent is given an error here.)
pub open spec fn spec_connect(node: OutputChainNode, req: LinkRequest) -> Result<
    SpecConnectPlan,
    ProtocolError,
>
    decreases node,
{
    match node {
        OutputChainNode::Tcp(_) => match spec_socket_addr_of(req) {
            Ok(target) => Ok(SpecConnectPlan { target, steps: Seq::empty() }),
            Err(e) => Err(e),
        },
        OutputChainNode::HeaderInjector(h) => match h.node_info.parent {
            Some(ChainNode::Output(p)) => match spec_connect(*p, req) {
                Ok(plan) => Ok(
                    SpecConnectPlan {
                        target: plan.target,
                        steps: plan.steps.push(SpecOutputStep::Inject(h.injection@)),
                    },
                ),
                Err(e) => Err(e),
            },
            _ => Err(ProtocolError::UnknownAddress),
        },
        OutputChainNode::Socks5(s) => match spec_connect(*s.parent, spec_request_for(s.proxy_addr)) {
            Ok(plan) => Ok(
                SpecConnectPlan {
                    target: plan.target,
                    steps: plan.steps.push(SpecOutputStep::Socks5(req@)),
                },
            ),
            Err(e) => Err(e),
        },
    }
}

impl InputChainNode {
    /// Whether the chain ends in a SOCKS5 server, every header injector in
    /// it having an input node as its parent.
    pub fn is_grounded(&self) -> (res: bool)
        ensures
            res == input_grounded(*self),
        decreases *self,
    {
        match self {
            InputChainNode::Socks5(_) => true,
            InputChainNode::HeaderInjector(h) => match &h.node_info.parent {
                Some(ChainNode::Input(p)) => p.is_grounded(),
                _ => false,
            },
        }
    }

    /// Whether every header injector in the chain has an input node as its
    /// parent, or none.
    pub fn is_well_formed(&self) -> (res: bool)
        ensures
            res == input_wf(*self),
        decreases *self,
    {
        match self {
            InputChainNode::Socks5(_) => true,
            InputChainNode::HeaderInjector(h) => match &h.node_info.parent {
                Some(ChainNode::Input(p)) => p.is_well_formed(),
                Some(ChainNode::Output(_)) => false,
                None => true,
            },
        }
    }

    /// The lengths of the headers to strip from a new connection before the
    /// SOCKS5 handshake, outermost first.
    pub fn headers_to_strip(&self) -> (res: Vec<usize>)
        requires
            input_wf(*self),
        ensures
            res@ == spec_headers_to_strip(*self),
        decreases *self,
    {
        match self {
            InputChainNode::Socks5(_) => Vec::new(),
            InputChainNode::HeaderInjector(h) => match &h.node_info.parent {
                Some(ChainNode::Input(p)) => {
                    let rest = p.headers_to_strip();
                    let mut res: Vec<usize> = Vec::new();
                    res.push(h.injection.len());
                    let mut i: usize = 0;
                    while i < rest.len()
                        invariant
                            i <= rest@.len(),
                            res@ == seq![h.injection@.len() as usize] + rest@.subrange(0, i as int),
                        decreases rest@.len() - i,
                    {
                        res.push(rest[i]);
                        i = i + 1;
                        assert(res@ =~= seq![h.injection@.len() as usize] + rest@.subrange(0, i as int));
                    }
                    assert(rest@.subrange(0, rest@.len() as int) =~= rest@);
                    res
                },
                Some(ChainNode::Output(_)) => {
                    proof {
                        assert(false);
                    }
                    Vec::new()
                },
                None => Vec::new(),
            },
        }
    }

    /// Writes the reply to the client: the SOCKS5 server at the end of the
    /// chain answers; a header injector hands the reply to its parent.
    pub fn send_response(&self, output: &mut Vec<u8>, reply: ReplyType)
        requires
            input_grounded(*self),
        ensures
            final(output)@ == old(output)@ + spec_response_bytes(reply),
        decreases *self,
    {
        match self {
            InputChainNode::Socks5(_) => send_response(output, reply),
            InputChainNode::HeaderInjector(h) => match &h.node_info.parent {
                Some(ChainNode::Input(p)) => p.send_response(output, reply),
                _ => {
                    proof {
                        assert(false);
                    }
                },
            },
        }
    }
}

impl OutputChainNode {
    /// Whether the chain ends in a TCP node, every header injector in it
    /// having an output node as its parent.
    pub fn is_well_formed(&self) -> (res: bool)
        ensures
            res == output_wf(*self),
        decreases *self,
    {
        match self {
            OutputChainNode::Tcp(_) => true,
            OutputChainNode::Socks5(s) => s.parent.is_well_formed(),
            OutputChainNode::HeaderInjector(h) => match &h.node_info.parent {
                Some(ChainNode::Output(p)) => p.is_well_formed(),
                _ => false,
            },
        }
    }

    /// The plan by which this chain opens a connection for the request.
    pub fn connect(&self, req: LinkRequest) -> (res: Result<ConnectPlan, ProtocolError>)
        requires
            output_wf(*self),
        ensures
            match res {
                Ok(plan) => spec_connect(*self, req) == Ok::<SpecConnectPlan, ProtocolError>(plan@),
                Err(e) => spec_connect(*self, req) == Err::<SpecConnectPlan, ProtocolError>(e),
            },
        decreases *self,
    {
        match self {
            OutputChainNode::Tcp(_) => match req.as_socket_addr() {
                Ok(target) => {
                    let plan = ConnectPlan { target, steps: Vec::new() };
                    assert(plan@.steps =~= Seq::<SpecOutputStep>::empty());
                    Ok(plan)
                },
                Err(e) => Err(e),
            },
            OutputChainNode::HeaderInjector(h) => match &h.node_info.parent {
                Some(ChainNode::Output(p)) => match p.connect(req) {
                    Ok(plan) => {
                        let ghost old_steps = plan@.steps;
                        let mut plan = plan;
                        let injection = h.injection.clone();
                        assert(injection@ =~= h.injection@);
                        plan.steps.push(OutputStep::Inject(injection));
                        assert(plan@.steps =~= old_steps.push(SpecOutputStep::Inject(h.injection@)));
                        Ok(plan)
                    },
                    Err(e) => Err(e),
                },
                _ => {
                    proof {
                        assert(false);
                    }
                    Err(ProtocolError::UnknownAddress)
                },
            },
            OutputChainNode::Socks5(s) => {
                let ghost r = req@;
                match s.parent.connect(LinkRequest::from(s.proxy_addr)) {
                    Ok(plan) => {
                        let ghost old_steps = plan@.steps;
                        let mut plan = plan;
                        plan.steps.push(OutputStep::Socks5(req));
                        assert(plan@.steps =~= old_steps.push(SpecOutputStep::Socks5(r)));
                        Ok(plan)
                    },
                    Err(e) => Err(e),
                }
            },
        }
    }
}

} // verus!
