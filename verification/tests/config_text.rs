use neutrino::config_text::{parse_config_text, ChainText, ConfigText, NodeText};

const CONFIG: &str = "
- input:
    - type: socks5_server
    - type: header_injector
      name: strip
      injection: \"GET / HTTP/1.1\\r\\n\\r\\n\"
  output:
    - type: tcp
    - type: socks5
      addr: 127.0.0.1:9050
  addr: 0.0.0.0:1080
";

fn text(s: &str) -> Option<String> {
    Some(s.to_string())
}

#[test]
fn parses_a_chain_set() {
    let expected = ChainText {
        input: Some(vec![
            NodeText { name: None, node_type: text("socks5_server"), injection: None, addr: None },
            NodeText {
                name: text("strip"),
                node_type: text("header_injector"),
                injection: text("GET / HTTP/1.1\r\n\r\n"),
                addr: None,
            },
        ]),
        output: Some(vec![
            NodeText { name: None, node_type: text("tcp"), injection: None, addr: None },
            NodeText { name: None, node_type: text("socks5"), injection: None, addr: text("127.0.0.1:9050") },
        ]),
        addr: text("0.0.0.0:1080"),
    };
    assert_eq!(parse_config_text(CONFIG), ConfigText::Parsed(expected));
}

#[test]
fn non_string_fields_and_non_arrays_read_as_absent() {
    let c = "- input: 3\n  output:\n    - type: 5\n  addr: [1]\n";
    assert_eq!(
        parse_config_text(c),
        ConfigText::Parsed(ChainText {
            input: None,
            output: Some(vec![NodeText { name: None, node_type: None, injection: None, addr: None }]),
            addr: None,
        })
    );
}

#[test]
fn empty_text_has_no_document() {
    assert_eq!(parse_config_text(""), ConfigText::NoDocument);
}

#[test]
fn a_top_level_hash_has_no_element_zero() {
    let c = "input:\n  - type: socks5_server\naddr: 0.0.0.0:1\n";
    assert_eq!(
        parse_config_text(c),
        ConfigText::Parsed(ChainText { input: None, output: None, addr: None })
    );
}

#[test]
fn element_zero_of_a_hash_is_its_integer_key_zero() {
    let c = "0:\n  addr: 1.2.3.4:5\n";
    assert_eq!(
        parse_config_text(c),
        ConfigText::Parsed(ChainText { input: None, output: None, addr: Some("1.2.3.4:5".to_string()) })
    );
}

#[test]
fn only_the_first_document_counts() {
    let c = "- addr: 1.1.1.1:1\n---\n- addr: 2.2.2.2:2\n";
    assert_eq!(
        parse_config_text(c),
        ConfigText::Parsed(ChainText { input: None, output: None, addr: Some("1.1.1.1:1".to_string()) })
    );
}

#[test]
fn invalid_yaml_is_unparsable() {
    assert_eq!(parse_config_text("- [unclosed"), ConfigText::Unparsable);
}
