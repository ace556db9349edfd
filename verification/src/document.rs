//! A YAML document as a tree of plain values, and the call that reads one
//! from text.

use vstd::prelude::*;

verus! {

/// One node of a YAML document. Numbers and tagged nodes have no place in a
/// job description, so only their presence is kept.
#[derive(Debug)]
pub enum YamlNode {
    Null,
    Bool(bool),
    Number,
    Text(String),
    Sequence(Vec<YamlNode>),
    Mapping(Vec<(YamlNode, YamlNode)>),
    Tagged,
}

/// A node as a mathematical value.
pub enum NodeModel {
    Null,
    Bool(bool),
    Number,
    Text(Seq<char>),
    Sequence(Seq<NodeModel>),
    Mapping(Seq<NodeModel>, Seq<NodeModel>),
    Tagged,
}

impl NodeModel {
    /// The entries of a mapping, keys with their values, in document order.
    pub open spec fn entries(self) -> Option<Seq<(NodeModel, NodeModel)>> {
        match self {
            NodeModel::Mapping(keys, values) => Some(
                Seq::new(keys.len(), |i: int| (keys[i], values[i])),
            ),
            _ => None,
        }
    }
}

impl View for YamlNode {
    type V = NodeModel;

    open spec fn view(&self) -> NodeModel
        decreases self,
    {
        match self {
            YamlNode::Null => NodeModel::Null,
            YamlNode::Bool(b) => NodeModel::Bool(*b),
            YamlNode::Number => NodeModel::Number,
            YamlNode::Text(s) => NodeModel::Text(s@),
            YamlNode::Sequence(v) => NodeModel::Sequence(
                Seq::new(
                    v.len() as nat,
                    |i: int|
                        if 0 <= i < v.len() {
                            v[i]@
                        } else {
                            NodeModel::Null
                        },
                ),
            ),
            YamlNode::Mapping(v) => NodeModel::Mapping(
                Seq::new(
                    v.len() as nat,
                    |i: int|
                        if 0 <= i < v.len() {
                            v[i].0@
                        } else {
                            NodeModel::Null
                        },
                ),
                Seq::new(
                    v.len() as nat,
                    |i: int|
                        if 0 <= i < v.len() {
                            v[i].1@
                        } else {
                            NodeModel::Null
                        },
                ),
            ),
            YamlNode::Tagged => NodeModel::Tagged,
        }
    }
}

/// The entries of a mapping node, each key and value as a mathematical
/// value.
pub open spec fn pairs(v: Seq<(YamlNode, YamlNode)>) -> Seq<(NodeModel, NodeModel)> {
    Seq::new(v.len(), |i: int| (v[i].0@, v[i].1@))
}

/// The items of a sequence node, each as a mathematical value.
pub open spec fn nodes(v: Seq<YamlNode>) -> Seq<NodeModel> {
    Seq::new(v.len(), |i: int| v[i]@)
}

pub proof fn lemma_mapping_view(v: Vec<(YamlNode, YamlNode)>)
    ensures
        YamlNode::Mapping(v)@.entries() == Some(pairs(v@)),
{
    assert(YamlNode::Mapping(v)@ is Mapping);
    assert(YamlNode::Mapping(v)@.entries()->0 =~= pairs(v@));
}

pub proof fn lemma_sequence_view(v: Vec<YamlNode>)
    ensures
        YamlNode::Sequence(v)@ == NodeModel::Sequence(nodes(v@)),
{
    assert(YamlNode::Sequence(v)@->Sequence_0 =~= nodes(v@));
}

/// `serde_yaml::Value`, the YAML reader's own tree. Verus sees nothing
/// inside it.
#[verifier::external_type_specification]
#[verifier::external_body]
pub struct ExYamlValue(serde_yaml::Value);

/// `serde_yaml::Error`, what the YAML reader says of a text that it turns
/// down. Verus sees nothing inside it.
#[verifier::external_type_specification]
#[verifier::external_body]
pub struct ExYamlError(serde_yaml::Error);

/// What a `serde_yaml::Value` holds: its scalars, items and entries, in
/// their order, as a tree of plain values.
pub uninterp spec fn value_tree(value: serde_yaml::Value) -> NodeModel;

/// The tree that the YAML reader makes of a text: `None` where it turns the
/// text down.
pub uninterp spec fn yaml_tree(text: Seq<char>) -> Option<NodeModel>;

/// `serde_yaml::from_str` at the type `serde_yaml::Value`: whether it
/// accepts a text, and the tree that it then reads, depend on the text
/// alone; that tree is named `yaml_tree`.
#[verifier::external_body]
pub(crate) fn read_value(text: &str) -> (r: Result<serde_yaml::Value, serde_yaml::Error>)
    ensures
        match r {
            Ok(value) => yaml_tree(text@) == Some(value_tree(value)),
            Err(_) => yaml_tree(text@) is None,
        },
{
    serde_yaml::from_str::<serde_yaml::Value>(text)
}

/// Rebuilds a `serde_yaml::Value` as a `YamlNode`, variant by variant: a
/// string keeps its text, a boolean its value, a sequence its items and a
/// mapping its entries, each in its order; of a number and of a tagged value
/// only the kind is kept.
#[verifier::external_body]
pub(crate) fn node_of(value: &serde_yaml::Value) -> (node: YamlNode)
    ensures
        node@ == value_tree(*value),
{
    match value {
        serde_yaml::Value::Null => YamlNode::Null,
        serde_yaml::Value::Bool(b) => YamlNode::Bool(*b),
        serde_yaml::Value::Number(_) => YamlNode::Number,
        serde_yaml::Value::String(s) => YamlNode::Text(s.clone()),
        serde_yaml::Value::Sequence(items) => YamlNode::Sequence(items.iter().map(node_of).collect()),
        serde_yaml::Value::Mapping(m) => YamlNode::Mapping(
            m.iter().map(|(k, v)| (node_of(k), node_of(v))).collect(),
        ),
        serde_yaml::Value::Tagged(_) => YamlNode::Tagged,
    }
}

/// `ToString::to_string` on a `serde_yaml::Error`: the reader's own words,
/// of which nothing is claimed.
#[verifier::external_body]
pub(crate) fn diagnostic(e: &serde_yaml::Error) -> String {
    e.to_string()
}

} // verus!
