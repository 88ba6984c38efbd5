use vstd::prelude::*;

verus! {

/// The mathematical shape of a parsed structured-text document, at the level
/// of detail the loader reads: text scalars, sequences, mappings, and every
/// other kind of node (null, boolean, number, tagged) collapsed into `Other`.
pub enum NodeModel {
    Text { text: Seq<char> },
    Sequence { items: Seq<NodeModel> },
    Mapping { entries: Seq<(NodeModel, NodeModel)> },
    Other,
}

/// The key the schema requires at the top level of the document.
pub open spec fn sentences_key() -> Seq<char> {
    "sentences"@
}

/// The value of the first entry of the mapping whose key is the text scalar
/// `key`, if the mapping has one.
pub open spec fn lookup_entry(
    entries: Seq<(NodeModel, NodeModel)>,
    key: Seq<char>,
) -> Option<NodeModel>
    decreases entries.len(),
{
    if entries.len() == 0 {
        None
    } else if entries[0].0 == (NodeModel::Text { text: key }) {
        Some(entries[0].1)
    } else {
        lookup_entry(entries.drop_first(), key)
    }
}

/// Whether every element of the sequence is a text scalar.
pub open spec fn all_text(items: Seq<NodeModel>) -> bool {
    forall|i: int| 0 <= i < items.len() ==> items[i] is Text
}

/// The texts of a sequence of text scalars, in order.
pub open spec fn texts_of(items: Seq<NodeModel>) -> Seq<Seq<char>> {
    items.map_values(|m: NodeModel| m->text)
}

/// What the schema makes of a parsed document: the sentences, element for
/// element and in order, when the document is a mapping whose `sentences`
/// key holds a sequence of text scalars; `None` for every other shape.
pub open spec fn extract_sentences(m: NodeModel) -> Option<Seq<Seq<char>>> {
    match m {
        NodeModel::Mapping { entries } => match lookup_entry(entries, sentences_key()) {
            Some(value) => match value {
                NodeModel::Sequence { items } => if all_text(items) {
                    Some(texts_of(items))
                } else {
                    None
                },
                _ => None,
            },
            None => None,
        },
        _ => None,
    }
}

} // verus!
