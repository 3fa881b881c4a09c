use neutrino::addr::{LinkAddr, LinkRequest, SocketAddress};
use neutrino::chain::{ChainNode, InputChainNode, OutputChainNode, OutputStep};
use neutrino::config::{
    check_input_chain, check_output_chain, load_input_chain, load_output_chain, AddrField,
    ChainConfig, ChainSet, ConfigError, NodeConfig,
};
use neutrino::error::ProtocolError;
use neutrino::socks5::ReplyType;

fn node(t: &str) -> NodeConfig {
    NodeConfig { name: None, node_type: Some(t.to_string()), injection: None, addr: AddrField::Missing }
}

fn injector(inj: &str) -> NodeConfig {
    NodeConfig { injection: Some(inj.as_bytes().to_vec()), ..node("header_injector") }
}

fn socks5(a: SocketAddress) -> NodeConfig {
    NodeConfig { addr: AddrField::Parsed(a), ..node("socks5") }
}

const PROXY_A: SocketAddress = SocketAddress::V4 { ip: [10, 0, 0, 1], port: 1080 };
const PROXY_B: SocketAddress = SocketAddress::V4 { ip: [10, 0, 0, 2], port: 1081 };
const LISTEN: SocketAddress = SocketAddress::V4 { ip: [127, 0, 0, 1], port: 8080 };

fn target() -> LinkRequest {
    LinkRequest { addr: LinkAddr::IPv4([93, 184, 216, 34]), port: 80 }
}

#[test]
fn tcp_chain_connects_directly() {
    let chain = load_output_chain(vec![node("tcp")]);
    let plan = chain.connect(target()).unwrap();
    assert_eq!(plan.target, SocketAddress::V4 { ip: [93, 184, 216, 34], port: 80 });
    assert!(plan.steps.is_empty());
}

#[test]
fn tcp_chain_refuses_domain_and_unknown() {
    let chain = load_output_chain(vec![node("tcp")]);
    let req = LinkRequest { addr: LinkAddr::Domain(b"example.com".to_vec()), port: 80 };
    assert_eq!(chain.connect(req), Err(ProtocolError::DomainNotSupported));
    let req = LinkRequest { addr: LinkAddr::Unknown(), port: 80 };
    assert_eq!(chain.connect(req), Err(ProtocolError::UnknownAddress));
}

#[test]
fn header_injection_before_socks5() {
    // tcp -> header_injector -> socks5: the header goes to the proxy first.
    let chain = load_output_chain(vec![node("tcp"), injector("GET / HTTP/1.1\r\n\r\n"), socks5(PROXY_A)]);
    let plan = chain.connect(target()).unwrap();
    assert_eq!(plan.target, PROXY_A);
    assert_eq!(
        plan.steps,
        vec![OutputStep::Inject(b"GET / HTTP/1.1\r\n\r\n".to_vec()), OutputStep::Socks5(target())]
    );
}

#[test]
fn header_injection_after_socks5() {
    let chain = load_output_chain(vec![node("tcp"), socks5(PROXY_A), injector("X")]);
    let plan = chain.connect(target()).unwrap();
    assert_eq!(plan.target, PROXY_A);
    assert_eq!(plan.steps, vec![OutputStep::Socks5(target()), OutputStep::Inject(b"X".to_vec())]);
}

#[test]
fn proxy_chaining() {
    // Connect to proxy A, ask it for proxy B, ask B for the target.
    let chain = load_output_chain(vec![node("tcp"), socks5(PROXY_A), socks5(PROXY_B)]);
    let plan = chain.connect(target()).unwrap();
    assert_eq!(plan.target, PROXY_A);
    assert_eq!(
        plan.steps,
        vec![OutputStep::Socks5(LinkRequest::from(PROXY_B)), OutputStep::Socks5(target())]
    );
    // A domain request is fine through a proxy: only the proxy's address is
    // turned into a socket address here.
    let req = LinkRequest { addr: LinkAddr::Domain(b"example.com".to_vec()), port: 443 };
    let plan = chain.connect(req.clone()).unwrap();
    assert_eq!(plan.steps[1], OutputStep::Socks5(req));
}

#[test]
fn loaded_output_chain_shape() {
    let mut n = injector("H");
    n.name = Some("inj".to_string());
    match load_output_chain(vec![node("tcp"), n]) {
        OutputChainNode::HeaderInjector(h) => {
            assert_eq!(h.injection, b"H".to_vec());
            assert_eq!(h.node_info.name, Some("inj".to_string()));
            match h.node_info.parent {
                Some(ChainNode::Output(p)) => match *p {
                    OutputChainNode::Tcp(t) => assert!(t.node_info.parent.is_none()),
                    _ => panic!("expected a tcp node"),
                },
                _ => panic!("expected an output parent"),
            }
        }
        _ => panic!("expected a header injector"),
    }
}

#[test]
fn input_chain_strips_headers_then_serves_socks5() {
    let chain = load_input_chain(vec![node("socks5_server"), injector("abc"), injector("hello")]);
    assert_eq!(chain.headers_to_strip(), vec![5, 3]);
    let mut out = Vec::new();
    chain.send_response(&mut out, ReplyType::GeneralFailure);
    assert_eq!(out, vec![5, 1, 0, 1, 0, 0, 0, 0, 0, 0]);
}

#[test]
fn input_chain_socks5_server_alone() {
    let chain = load_input_chain(vec![node("socks5_server")]);
    assert!(chain.headers_to_strip().is_empty());
    assert!(matches!(chain, InputChainNode::Socks5(_)));
}

#[test]
fn input_chain_socks5_server_starts_anew() {
    // Nodes before the last SOCKS5 server are dropped.
    let chain = load_input_chain(vec![injector("zz"), node("socks5_server"), injector("q")]);
    assert_eq!(chain.headers_to_strip(), vec![1]);
}

#[test]
fn input_chain_without_server_is_not_grounded() {
    let chain = load_input_chain(vec![injector("a"), injector("bb")]);
    assert!(chain.is_well_formed());
    assert!(!chain.is_grounded());
    // The outer header is stripped; the inner injector has no parent.
    assert_eq!(chain.headers_to_strip(), vec![2]);
    match chain {
        InputChainNode::HeaderInjector(h) => match h.node_info.parent {
            Some(ChainNode::Input(p)) => match *p {
                InputChainNode::HeaderInjector(h1) => assert!(h1.node_info.parent.is_none()),
                _ => panic!("expected a header injector"),
            },
            _ => panic!("expected an input parent"),
        },
        _ => panic!("expected a header injector"),
    }
}

#[test]
fn header_injection_matches_stripping() {
    // The output chain of one proxy injects what the input chain of the
    // other strips, before the SOCKS5 exchange.
    let out = load_output_chain(vec![node("tcp"), injector("POST / HTTP/1.1\r\n\r\n"), socks5(PROXY_A)]);
    let inp = load_input_chain(vec![node("socks5_server"), injector("POST / HTTP/1.1\r\n\r\n")]);
    let plan = out.connect(target()).unwrap();
    match &plan.steps[0] {
        OutputStep::Inject(h) => assert_eq!(inp.headers_to_strip(), vec![h.len()]),
        _ => panic!("expected an injection first"),
    }
}

#[test]
fn output_chain_errors() {
    assert_eq!(check_output_chain(&vec![]), Err(ConfigError::EmptyChain));
    assert_eq!(check_output_chain(&vec![node("socks5")]), Err(ConfigError::Socks5First));
    assert_eq!(check_output_chain(&vec![injector("x")]), Err(ConfigError::HeaderInjectorFirst));
    assert_eq!(check_output_chain(&vec![node("tcp"), node("tcp")]), Err(ConfigError::TcpNotFirst));
    assert_eq!(check_output_chain(&vec![node("tcp"), node("udp")]), Err(ConfigError::UnknownNode));
    assert_eq!(check_output_chain(&vec![node("tcp"), node("socks5")]), Err(ConfigError::MissingAddr));
    let mut bad = node("socks5");
    bad.addr = AddrField::Invalid;
    assert_eq!(check_output_chain(&vec![node("tcp"), bad]), Err(ConfigError::InvalidAddr));
    assert_eq!(
        check_output_chain(&vec![node("tcp"), node("header_injector")]),
        Err(ConfigError::MissingInjection)
    );
    let untyped = NodeConfig { node_type: None, ..node("tcp") };
    assert_eq!(check_output_chain(&vec![untyped]), Err(ConfigError::MissingType));
    // The first problem wins.
    assert_eq!(
        check_output_chain(&vec![node("socks5"), node("tcp")]),
        Err(ConfigError::Socks5First)
    );
    assert_eq!(check_output_chain(&vec![node("tcp"), injector("x"), socks5(PROXY_A)]), Ok(()));
    // The input chain's node types are unknown here.
    assert_eq!(check_output_chain(&vec![node("socks5_server")]), Err(ConfigError::UnknownNode));
}

#[test]
fn input_chain_errors() {
    assert_eq!(check_input_chain(&vec![]), Err(ConfigError::EmptyChain));
    assert_eq!(check_input_chain(&vec![node("tcp")]), Err(ConfigError::UnknownNode));
    assert_eq!(check_input_chain(&vec![node("socks5")]), Err(ConfigError::UnknownNode));
    assert_eq!(
        check_input_chain(&vec![node("socks5_server"), node("header_injector")]),
        Err(ConfigError::MissingInjection)
    );
    let untyped = NodeConfig { node_type: None, ..node("socks5_server") };
    assert_eq!(check_input_chain(&vec![untyped]), Err(ConfigError::MissingType));
    assert_eq!(check_input_chain(&vec![injector("a")]), Ok(()));
    assert_eq!(check_input_chain(&vec![node("socks5_server"), injector("a")]), Ok(()));
}

fn good_config() -> ChainConfig {
    ChainConfig {
        input: Some(vec![node("socks5_server"), injector("HDR")]),
        output: Some(vec![node("tcp"), socks5(PROXY_B)]),
        addr: AddrField::Parsed(LISTEN),
    }
}

#[test]
fn chain_set_check_and_load() {
    assert_eq!(ChainSet::check(&good_config()), Ok(()));
    let set = ChainSet::load(good_config());
    assert_eq!(set.address, LISTEN);
    assert_eq!(set.input_chain.headers_to_strip(), vec![3]);
    let plan = set.output_chain.connect(target()).unwrap();
    assert_eq!(plan.target, PROXY_B);
    assert_eq!(plan.steps, vec![OutputStep::Socks5(target())]);
}

#[test]
fn chain_set_errors_in_loading_order() {
    let mut c = good_config();
    c.input = None;
    c.output = None;
    assert_eq!(ChainSet::check(&c), Err(ConfigError::InputNotArray));
    let mut c = good_config();
    c.input = Some(vec![]);
    c.output = None;
    assert_eq!(ChainSet::check(&c), Err(ConfigError::EmptyChain));
    let mut c = good_config();
    c.output = None;
    c.addr = AddrField::Missing;
    assert_eq!(ChainSet::check(&c), Err(ConfigError::OutputNotArray));
    let mut c = good_config();
    c.output = Some(vec![node("socks5")]);
    c.addr = AddrField::Invalid;
    assert_eq!(ChainSet::check(&c), Err(ConfigError::Socks5First));
    let mut c = good_config();
    c.addr = AddrField::Missing;
    assert_eq!(ChainSet::check(&c), Err(ConfigError::MissingAddr));
    let mut c = good_config();
    c.addr = AddrField::Invalid;
    assert_eq!(ChainSet::check(&c), Err(ConfigError::InvalidAddr));
}
