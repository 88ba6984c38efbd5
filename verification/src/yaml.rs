use vstd::prelude::*;

use crate::model::NodeModel;

verus! {

/// serde_yaml's document value, declared so that values of it can pass
/// through signatures and fields; the library never looks inside one
/// directly, only through `node_of`.
#[verifier::external_type_specification]
#[verifier::external_body]
pub struct ExValue(serde_yaml::Value);

/// The contents of a serde_yaml document value, as the model the library's
/// contracts speak of.
pub uninterp spec fn value_model(v: serde_yaml::Value) -> NodeModel;

/// What serde_yaml::from_str makes of the given text: the model of the
/// document value it returns, or `None` where it refuses the text.  The
/// outcome depends on the text alone.
pub uninterp spec fn yaml_document(text: Seq<char>) -> Option<NodeModel>;

/// One level of a parsed document, with the children still carried as
/// serde_yaml values.
pub enum YamlNode {
    Text(String),
    Sequence(Vec<serde_yaml::Value>),
    Mapping(Vec<(serde_yaml::Value, serde_yaml::Value)>),
    Other,
}

/// Whether an executable node agrees, one level deep, with a model node:
/// same kind, same text, and children whose models are the model's children,
/// element for element and in order.
pub open spec fn node_models(n: YamlNode, m: NodeModel) -> bool {
    match m {
        NodeModel::Text { text } => n matches YamlNode::Text(s) && s@ == text,
        NodeModel::Sequence { items } => {
            &&& n matches YamlNode::Sequence(vs)
            &&& vs@.len() == items.len()
            &&& forall|i: int|
                0 <= i < items.len() ==> value_model(#[trigger] vs@[i]) == items[i]
        },
        NodeModel::Mapping { entries } => {
            &&& n matches YamlNode::Mapping(es)
            &&& es@.len() == entries.len()
            &&& forall|i: int|
                0 <= i < entries.len() ==> value_model((#[trigger] es@[i]).0) == entries[i].0
                    && value_model(es@[i].1) == entries[i].1
        },
        NodeModel::Other => n is Other,
    }
}

/// Relies on serde_yaml::from_str: the text is parsed under the YAML
/// grammar into a document value, or refused with a syntax error whose
/// message carries position and context.
#[verifier::external_body]
pub(crate) fn parse_value(text: &str) -> (r: Result<serde_yaml::Value, String>)
    ensures
        r is Ok <==> yaml_document(text@) is Some,
        r is Ok ==> value_model(r->Ok_0) == yaml_document(text@)->Some_0,
{
    match serde_yaml::from_str::<serde_yaml::Value>(text) {
        Ok(v) => Ok(v),
        Err(e) => Err(e.to_string()),
    }
}

/// Relies on serde_yaml::Value's variants: a string becomes a text node, a
/// sequence or a mapping hands its children over one for one and in order
/// (a mapping iterates in insertion order), and every other variant (null,
/// boolean, number, tagged) becomes `Other`.
#[verifier::external_body]
pub(crate) fn node_of(v: serde_yaml::Value) -> (n: YamlNode)
    ensures
        node_models(n, value_model(v)),
{
    match v {
        serde_yaml::Value::Null => YamlNode::Other,
        serde_yaml::Value::Bool(_) => YamlNode::Other,
        serde_yaml::Value::Number(_) => YamlNode::Other,
        serde_yaml::Value::String(s) => YamlNode::Text(s),
        serde_yaml::Value::Sequence(items) => YamlNode::Sequence(items),
        serde_yaml::Value::Mapping(entries) => YamlNode::Mapping(entries.into_iter().collect()),
        serde_yaml::Value::Tagged(_) => YamlNode::Other,
    }
}

} // verus!
