use vstd::prelude::*;
use yaml_rust::{ScanError, Yaml, YamlLoader};

verus! {

/// One node of a chain, as the configuration text gives it: each field
/// that is a string, as that string.
#[derive(Debug, Clone, PartialEq, Eq)]
pub struct NodeText {
    pub name: Option<String>,
    pub node_type: Option<String>,
    pub injection: Option<String>,
    pub addr: Option<String>,
}

/// A chain set, as the configuration text gives it: its input and output
/// chains where they are arrays, and its address where it is a string.
#[derive(Debug, Clone, PartialEq, Eq)]
pub struct ChainText {
    pub input: Option<Vec<NodeText>>,
    pub output: Option<Vec<NodeText>>,
    pub addr: Option<String>,
}

/// What the configuration text holds: no YAML, YAML without a document,
/// or the chain set that its first document starts with.
#[derive(Debug, Clone, PartialEq, Eq)]
pub enum ConfigText {
    Unparsable,
    NoDocument,
    Parsed(ChainText),
}

/// The mathematical value of a [`NodeText`].
pub struct SpecNodeText {
    pub name: Option<Seq<char>>,
    pub node_type: Option<Seq<char>>,
    pub injection: Option<Seq<char>>,
    pub addr: Option<Seq<char>>,
}

/// The mathematical value of a [`ChainText`].
pub struct SpecChainText {
    pub input: Option<Seq<SpecNodeText>>,
    pub output: Option<Seq<SpecNodeText>>,
    pub addr: Option<Seq<char>>,
}

/// The mathematical value of a [`ConfigText`].
pub enum SpecConfigText {
    Unparsable,
    NoDocument,
    Parsed(SpecChainText),
}

/// The value of an optional string.
pub open spec fn opt_str(s: Option<String>) -> Option<Seq<char>> {
    match s {
        Some(s) => Some(s@),
        None => None,
    }
}

impl View for NodeText {
    type V = SpecNodeText;

    open spec fn view(&self) -> SpecNodeText {
        SpecNodeText {
            name: opt_str(self.name),
            node_type: opt_str(self.node_type),
            injection: opt_str(self.injection),
            addr: opt_str(self.addr),
        }
    }
}

/// The value of an optional list of nodes.
pub open spec fn opt_nodes(nodes: Option<Vec<NodeText>>) -> Option<Seq<SpecNodeText>> {
    match nodes {
        Some(v) => Some(v@.map_values(|n: NodeText| n@)),
        None => None,
    }
}

impl View for ChainText {
    type V = SpecChainText;

    open spec fn view(&self) -> SpecChainText {
        SpecChainText {
            input: opt_nodes(self.input),
            output: opt_nodes(self.output),
            addr: opt_str(self.addr),
        }
    }
}

impl View for ConfigText {
    type V = SpecConfigText;

    open spec fn view(&self) -> SpecConfigText {
        match self {
            ConfigText::Unparsable => SpecConfigText::Unparsable,
            ConfigText::NoDocument => SpecConfigText::NoDocument,
            ConfigText::Parsed(c) => SpecConfigText::Parsed(c@),
        }
    }
}

// ---------------------------------------------------------------------
// YAML documents
// ---------------------------------------------------------------------
#[verifier::external_type_specification]
#[verifier::external_body]
pub struct ExYaml(Yaml);

#[verifier::external_type_specification]
#[verifier::external_body]
pub struct ExScanError(ScanError);

/// One step down a YAML node: to the value of a string key or of an
/// integer key of a hash, or to an element of an array.
pub enum YamlStep {
    StrKey(Seq<char>),
    IntKey(i64),
    Elem(int),
}

/// What a YAML node is, as far as the configuration reads it: a string,
/// an array of a length, a hash, or anything else.
pub enum YamlKind {
    Str(Seq<char>),
    Array(nat),
    Hash,
    Other,
}

/// What a YAML node holds: the kind of the node at the end of every path
/// of steps from it, the empty path leading to the node itself.
pub uninterp spec fn yaml_contents(node: Yaml) -> Map<Seq<YamlStep>, YamlKind>;

/// The documents that YAML text holds, each by its contents, or nothing
/// where the text is no YAML.
pub uninterp spec fn spec_yaml_load(text: Seq<char>) -> Option<Seq<Map<Seq<YamlStep>, YamlKind>>>;

/// The contents of a node that the YAML library hands out for a node that
/// is not there (its bad value).
pub open spec fn bad_contents() -> Map<Seq<YamlStep>, YamlKind> {
    map![Seq::empty() => YamlKind::Other]
}

/// The contents of the node one step down, or of the bad value where there
/// is no such node.
pub open spec fn spec_child(m: Map<Seq<YamlStep>, YamlKind>, step: YamlStep) -> Map<
    Seq<YamlStep>,
    YamlKind,
> {
    if m.dom().contains(seq![step]) {
        Map::new(|p: Seq<YamlStep>| m.dom().contains(seq![step] + p), |p: Seq<YamlStep>| m[seq![step] + p])
    } else {
        bad_contents()
    }
}

/// Looking a string key up in a node: a hash gives the value of that key,
/// anything else the bad value.
pub open spec fn spec_index_str(m: Map<Seq<YamlStep>, YamlKind>, key: Seq<char>) -> Map<
    Seq<YamlStep>,
    YamlKind,
> {
    match m[Seq::empty()] {
        YamlKind::Hash => spec_child(m, YamlStep::StrKey(key)),
        _ => bad_contents(),
    }
}

/// Looking a number up in a node: an array gives that element, a hash the
/// value of that integer key, anything else the bad value.
pub open spec fn spec_index_usize(m: Map<Seq<YamlStep>, YamlKind>, i: usize) -> Map<
    Seq<YamlStep>,
    YamlKind,
> {
    match m[Seq::empty()] {
        YamlKind::Array(_) => spec_child(m, YamlStep::Elem(i as int)),
        YamlKind::Hash => spec_child(m, YamlStep::IntKey(i as i64)),
        _ => bad_contents(),
    }
}

/// The string that a node is, if it is one.
pub open spec fn spec_as_str(m: Map<Seq<YamlStep>, YamlKind>) -> Option<Seq<char>> {
    match m[Seq::empty()] {
        YamlKind::Str(s) => Some(s),
        _ => None,
    }
}

/// Reads YAML text into its documents, with
/// `yaml_rust::YamlLoader::load_from_str`; the scanner's error where the
/// text is no YAML. The documents are named by their contents; what YAML
/// text means is not written out here.
#[verifier::external_body]
fn yaml_load(text: &str) -> (res: Result<Vec<Yaml>, ScanError>)
    ensures
        res is Ok <==> spec_yaml_load(text@) is Some,
        res matches Ok(docs) ==> docs@.map_values(|d: Yaml| yaml_contents(d)) == spec_yaml_load(
            text@,
        ).unwrap(),
{
    YamlLoader::load_from_str(text)
}

/// Looks a string key up in a node, with `Index<&str>` of `yaml_rust::Yaml`.
#[verifier::external_body]
fn yaml_get<'a>(node: &'a Yaml, key: &str) -> (res: &'a Yaml)
    ensures
        yaml_contents(*res) == spec_index_str(yaml_contents(*node), key@),
{
    &node[key]
}

/// Looks a number up in a node, with `Index<usize>` of `yaml_rust::Yaml`.
#[verifier::external_body]
fn yaml_at(node: &Yaml, i: usize) -> (res: &Yaml)
    ensures
        yaml_contents(*res) == spec_index_usize(yaml_contents(*node), i),
{
    &node[i]
}

/// The string that a node is, with `yaml_rust::Yaml::as_str`.
#[verifier::external_body]
fn yaml_as_str(node: &Yaml) -> (res: Option<String>)
    ensures
        opt_str(res) == spec_as_str(yaml_contents(*node)),
{
    node.as_str().map(String::from)
}

/// The elements of a node that is an array, with
/// `yaml_rust::Yaml::as_vec`.
#[verifier::external_body]
fn yaml_as_vec(node: &Yaml) -> (res: Option<&Vec<Yaml>>)
    ensures
        res is Some <==> yaml_contents(*node)[Seq::empty()] is Array,
        res matches Some(v) ==> yaml_contents(*node)[Seq::empty()] == YamlKind::Array(v@.len())
            && forall|i: int|
            0 <= i < v@.len() ==> yaml_contents(#[trigger] v@[i]) == spec_child(
                yaml_contents(*node),
                YamlStep::Elem(i),
            ),
{
    node.as_vec()
}

// ---------------------------------------------------------------------
// Reading the configuration
// ---------------------------------------------------------------------
/// A node of a chain: its `name`, `type`, `injection` and `addr` fields,
/// each where it is a string.
pub open spec fn spec_node_text(m: Map<Seq<YamlStep>, YamlKind>) -> SpecNodeText {
    SpecNodeText {
        name: spec_as_str(spec_index_str(m, "name"@)),
        node_type: spec_as_str(spec_index_str(m, "type"@)),
        injection: spec_as_str(spec_index_str(m, "injection"@)),
        addr: spec_as_str(spec_index_str(m, "addr"@)),
    }
}

/// A chain: the nodes of an array, or nothing where the node is no array.
pub open spec fn spec_nodes(m: Map<Seq<YamlStep>, YamlKind>) -> Option<Seq<SpecNodeText>> {
    match m[Seq::empty()] {
        YamlKind::Array(n) => Some(
            Seq::new(n, |i: int| spec_node_text(spec_child(m, YamlStep::Elem(i)))),
        ),
        _ => None,
    }
}

/// A chain set: its `input` and `output` chains and its `addr` field.
pub open spec fn spec_chain_text(m: Map<Seq<YamlStep>, YamlKind>) -> SpecChainText {
    SpecChainText {
        input: spec_nodes(spec_index_str(m, "input"@)),
        output: spec_nodes(spec_index_str(m, "output"@)),
        addr: spec_as_str(spec_index_str(m, "addr"@)),
    }
}

/// What the documents of the configuration hold: the chain set that is
/// element 0 of the first document.
pub open spec fn spec_docs_text(docs: Seq<Map<Seq<YamlStep>, YamlKind>>) -> SpecConfigText {
    if docs.len() == 0 {
        SpecConfigText::NoDocument
    } else {
        SpecConfigText::Parsed(spec_chain_text(spec_index_usize(docs[0], 0)))
    }
}

/// What configuration text holds.
pub open spec fn spec_config_text(text: Seq<char>) -> SpecConfigText {
    match spec_yaml_load(text) {
        None => SpecConfigText::Unparsable,
        Some(docs) => spec_docs_text(docs),
    }
}

/// Reads a string field of a node.
fn str_field(node: &Yaml, key: &str) -> (res: Option<String>)
    ensures
        opt_str(res) == spec_as_str(spec_index_str(yaml_contents(*node), key@)),
{
    yaml_as_str(yaml_get(node, key))
}

/// Reads a node of a chain.
fn node_text(node: &Yaml) -> (res: NodeText)
    ensures
        res@ == spec_node_text(yaml_contents(*node)),
{
    NodeText {
        name: str_field(node, "name"),
        node_type: str_field(node, "type"),
        injection: str_field(node, "injection"),
        addr: str_field(node, "addr"),
    }
}

/// Reads a chain.
fn nodes_text(node: &Yaml) -> (res: Option<Vec<NodeText>>)
    ensures
        opt_nodes(res) == spec_nodes(yaml_contents(*node)),
{
    match yaml_as_vec(node) {
        None => None,
        Some(elems) => {
            let ghost m = yaml_contents(*node);
            let mut res: Vec<NodeText> = Vec::new();
            let mut i: usize = 0;
            while i < elems.len()
                invariant
                    i <= elems@.len(),
                    m[Seq::empty()] == YamlKind::Array(elems@.len()),
                    forall|j: int|
                        0 <= j < elems@.len() ==> yaml_contents(#[trigger] elems@[j]) == spec_child(
                            m,
                            YamlStep::Elem(j),
                        ),
                    res@.len() == i,
                    forall|j: int|
                        0 <= j < i ==> (#[trigger] res@[j])@ == spec_node_text(
                            spec_child(m, YamlStep::Elem(j)),
                        ),
                decreases elems@.len() - i,
            {
                let n = node_text(&elems[i]);
                res.push(n);
                i = i + 1;
            }
            assert(res@.map_values(|n: NodeText| n@) =~= Seq::new(
                elems@.len() as nat,
                |j: int| spec_node_text(spec_child(m, YamlStep::Elem(j))),
            ));
            Some(res)
        },
    }
}

/// Reads a chain set.
fn chain_text(node: &Yaml) -> (res: ChainText)
    ensures
        res@ == spec_chain_text(yaml_contents(*node)),
{
    ChainText {
        input: nodes_text(yaml_get(node, "input")),
        output: nodes_text(yaml_get(node, "output")),
        addr: str_field(node, "addr"),
    }
}

/// Reads the chain set that configuration documents hold: element 0 of
/// the first document.
pub fn config_text_of(docs: &Vec<Yaml>) -> (res: ConfigText)
    ensures
        res@ == spec_docs_text(docs@.map_values(|d: Yaml| yaml_contents(d))),
{
    if docs.len() == 0 {
        return ConfigText::NoDocument;
    }
    let root = yaml_at(&docs[0], 0);
    ConfigText::Parsed(chain_text(root))
}

/// Reads configuration text as YAML and takes from it the chain set it
/// describes.
pub fn parse_config_text(text: &str) -> (res: ConfigText)
    ensures
        res@ == spec_config_text(text@),
{
    match yaml_load(text) {
        Err(_) => ConfigText::Unparsable,
        Ok(docs) => config_text_of(&docs),
    }
}

/// Which fields the configuration is read from, path by path, in the
/// element that starts the configuration: where it is a hash, the chain
/// set's address is the string under its key `addr`; where its key `input`
/// (or `output`) holds an array, that chain has a node for each element,
/// and a node that is a hash has as its name, type, injection and address
/// the strings under its keys `name`, `type`, `injection` and `addr`.
pub proof fn lemma_config_fields(
    m: Map<Seq<YamlStep>, YamlKind>,
    chain: Seq<char>,
    i: int,
    field: Seq<char>,
    s: Seq<char>,
)
    requires
        m[Seq::empty()] == YamlKind::Hash,
    ensures
        m.dom().contains(seq![YamlStep::StrKey("addr"@)]) && m[seq![YamlStep::StrKey("addr"@)]]
            == YamlKind::Str(s) ==> spec_chain_text(m).addr == Some(s),
        ({
            let c = seq![YamlStep::StrKey(chain)];
            let e = c.push(YamlStep::Elem(i));
            let f = e.push(YamlStep::StrKey(field));
            (chain == "input"@ || chain == "output"@) && m.dom().contains(c) && m[c] is Array
                && m.dom().contains(e) && m[e] == YamlKind::Hash && m.dom().contains(f) && m[f]
                == YamlKind::Str(s) && 0 <= i < m[c]->Array_0 ==> {
                let nodes = if chain == "input"@ {
                    spec_chain_text(m).input
                } else {
                    spec_chain_text(m).output
                };
                &&& nodes is Some
                &&& nodes.unwrap().len() == m[c]->Array_0
                &&& (field == "name"@ ==> nodes.unwrap()[i].name == Some(s))
                &&& (field == "type"@ ==> nodes.unwrap()[i].node_type == Some(s))
                &&& (field == "injection"@ ==> nodes.unwrap()[i].injection == Some(s))
                &&& (field == "addr"@ ==> nodes.unwrap()[i].addr == Some(s))
            }
        }),
{
    let a = seq![YamlStep::StrKey("addr"@)];
    assert(a =~= seq![YamlStep::StrKey("addr"@)] + Seq::<YamlStep>::empty());
    let c = seq![YamlStep::StrKey(chain)];
    let e = c.push(YamlStep::Elem(i));
    let f = e.push(YamlStep::StrKey(field));
    if m.dom().contains(c) && m.dom().contains(e) && m.dom().contains(f) {
        let mc = spec_child(m, YamlStep::StrKey(chain));
        assert(c =~= c + Seq::<YamlStep>::empty());
        assert(mc[Seq::empty()] == m[c]);
        assert(e =~= c + seq![YamlStep::Elem(i)]);
        assert(mc.dom().contains(seq![YamlStep::Elem(i)]));
        let me = spec_child(mc, YamlStep::Elem(i));
        assert(seq![YamlStep::Elem(i)] + Seq::<YamlStep>::empty() =~= seq![YamlStep::Elem(i)]);
        assert(me[Seq::empty()] == m[e]);
        assert(f =~= c + (seq![YamlStep::Elem(i)] + seq![YamlStep::StrKey(field)]));
        assert(seq![YamlStep::Elem(i)] + seq![YamlStep::StrKey(field)] =~= seq![YamlStep::Elem(i), YamlStep::StrKey(field)]);
        assert(mc.dom().contains(seq![YamlStep::Elem(i), YamlStep::StrKey(field)]));
        assert(seq![YamlStep::Elem(i), YamlStep::StrKey(field)] =~= seq![YamlStep::Elem(i)] + seq![YamlStep::StrKey(field)]);
        assert(me.dom().contains(seq![YamlStep::StrKey(field)]));
        let mf = spec_child(me, YamlStep::StrKey(field));
        assert(seq![YamlStep::StrKey(field)] + Seq::<YamlStep>::empty() =~= seq![YamlStep::StrKey(field)]);
        assert(mf[Seq::empty()] == m[f]);
    }
}

} // verus!
