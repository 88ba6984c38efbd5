use vstd::prelude::*;

use crate::error::LoadError;
use crate::model::NodeModel;
use crate::model::all_text;
use crate::model::extract_sentences;
use crate::model::lookup_entry;
use crate::model::sentences_key;
use crate::model::texts_of;
use crate::record::StructuredRecord;
use crate::yaml::YamlNode;
use crate::yaml::node_of;
use crate::yaml::parse_value;
use crate::yaml::value_model;
use crate::yaml::yaml_document;

verus! {

/// The models of a vector of mapping entries, pair for pair and in order.
spec fn entry_models(
    es: Seq<(serde_yaml::Value, serde_yaml::Value)>,
) -> Seq<(NodeModel, NodeModel)> {
    es.map_values(
        |e: (serde_yaml::Value, serde_yaml::Value)| (value_model(e.0), value_model(e.1)),
    )
}

/// The models of a vector of sequence elements, element for element.
spec fn item_models(vs: Seq<serde_yaml::Value>) -> Seq<NodeModel> {
    vs.map_values(|v: serde_yaml::Value| value_model(v))
}

/// Walks the mapping entries in document order and hands back the value of
/// the first entry whose key is the text scalar `sentences`, if any entry
/// has that key.
fn find_sentences(entries: Vec<(serde_yaml::Value, serde_yaml::Value)>) -> (r: Option<
    serde_yaml::Value,
>)
    ensures
        r matches Some(v) ==> lookup_entry(entry_models(entries@), sentences_key())
            == Some(value_model(v)),
        r is None ==> lookup_entry(entry_models(entries@), sentences_key()) is None,
{
    let ghost ems = entry_models(entries@);
    let key: String = "sentences".to_owned();
    let mut rest = entries;
    while rest.len() > 0
        invariant
            key@ == sentences_key(),
            ems == entry_models(entries@),
            lookup_entry(ems, sentences_key()) == lookup_entry(
                entry_models(rest@),
                sentences_key(),
            ),
        decreases rest.len(),
    {
        let ghost prev = rest@;
        let (k, v) = rest.remove(0);
        proof {
            assert(entry_models(prev)[0] == (value_model(k), value_model(v)));
            assert(entry_models(rest@) =~= entry_models(prev).drop_first());
        }
        let kn = node_of(k);
        match kn {
            YamlNode::Text(s) => {
                if s == key {
                    proof {
                        assert(value_model(k) == (NodeModel::Text { text: sentences_key() }));
                    }
                    return Some(v);
                }
                proof {
                    assert(value_model(k) != (NodeModel::Text { text: sentences_key() }));
                }
            },
            _ => {
                proof {
                    assert(!(value_model(k) is Text));
                }
            },
        }
    }
    None
}

/// Walks the sequence elements in order and collects their texts; hands
/// back nothing as soon as an element is not a text scalar.
fn collect_texts(items: Vec<serde_yaml::Value>) -> (r: Option<Vec<String>>)
    ensures
        r matches Some(texts) ==> all_text(item_models(items@)) && texts.deep_view() == texts_of(
            item_models(items@),
        ),
        r is None ==> !all_text(item_models(items@)),
{
    let ghost ims = item_models(items@);
    let mut rest = items;
    let mut texts: Vec<String> = Vec::new();
    while rest.len() > 0
        invariant
            ims == item_models(items@),
            ims.len() == texts@.len() + rest@.len(),
            item_models(rest@) == ims.skip(texts@.len() as int),
            all_text(ims.take(texts@.len() as int)),
            texts.deep_view() == texts_of(ims.take(texts@.len() as int)),
        decreases rest.len(),
    {
        let ghost done: int = texts@.len() as int;
        let ghost prev = rest@;
        let it = rest.remove(0);
        proof {
            assert(item_models(prev)[0] == value_model(it));
            assert(value_model(it) == ims[done]);
            assert(item_models(rest@) =~= item_models(prev).drop_first());
            assert(item_models(rest@) =~= ims.skip(done + 1));
        }
        match node_of(it) {
            YamlNode::Text(s) => {
                let ghost tseq = texts@;
                let ghost tdeep = texts.deep_view();
                let ghost stext = s@;
                texts.push(s);
                proof {
                    assert(ims[done] == (NodeModel::Text { text: stext }));
                    assert(all_text(ims.take(done + 1)));
                    assert forall|i: int| 0 <= i < done + 1 implies texts.deep_view()[i]
                        == texts_of(ims.take(done + 1))[i] by {
                        assert(texts_of(ims.take(done + 1))[i] == ims[i]->text);
                        if i < done {
                            assert(texts@[i] == tseq[i]);
                            assert(tdeep[i] == texts_of(ims.take(done))[i]);
                        }
                    }
                    assert(texts.deep_view() =~= texts_of(ims.take(done + 1)));
                }
            },
            _ => {
                proof {
                    assert(!(ims[done] is Text));
                }
                return None;
            },
        }
    }
    proof {
        assert(ims.take(texts@.len() as int) =~= ims);
    }
    Some(texts)
}

/// Checks a parsed document value against the schema — a mapping whose key
/// `sentences` holds a sequence of text scalars — and builds the record
/// holding exactly those texts, element for element and in order.  Every
/// shape that differs (wrong top-level kind, missing key, wrong element
/// kind) is reported as a schema mismatch.
pub fn validate_document(doc: serde_yaml::Value) -> (r: Result<StructuredRecord, LoadError>)
    ensures
        r is Ok <==> extract_sentences(value_model(doc)) is Some,
        r matches Ok(record) ==> record@ == extract_sentences(value_model(doc))->Some_0,
        r is Err ==> r->Err_0 is SchemaMismatch,
{
    let ghost m = value_model(doc);
    let top = node_of(doc);
    let entries = match top {
        YamlNode::Mapping(entries) => entries,
        _ => {
            return Err(
                LoadError::SchemaMismatch { cause: "the document is not a mapping".to_owned() },
            );
        },
    };
    proof {
        assert(entry_models(entries@) =~= m->entries);
    }
    let value = match find_sentences(entries) {
        Some(value) => value,
        None => {
            return Err(
                LoadError::SchemaMismatch {
                    cause: "the document has no `sentences` key".to_owned(),
                },
            );
        },
    };
    let ghost sv = value_model(value);
    let vn = node_of(value);
    let items = match vn {
        YamlNode::Sequence(items) => items,
        _ => {
            return Err(
                LoadError::SchemaMismatch { cause: "`sentences` is not a sequence".to_owned() },
            );
        },
    };
    proof {
        assert(item_models(items@) =~= sv->items);
    }
    match collect_texts(items) {
        Some(texts) => Ok(StructuredRecord::new(texts)),
        None => Err(
            LoadError::SchemaMismatch {
                cause: "an element of `sentences` is not a text scalar".to_owned(),
            },
        ),
    }
}

/// Whether `r` is the outcome the load contract allows for `text`: success
/// exactly when the text parses under the document grammar and matches the
/// schema, with the record holding the document's sentences in order; a
/// text the grammar refuses reported as `ParseError`; a document of the
/// wrong shape reported as `SchemaMismatch`.
pub open spec fn loads_to(text: Seq<char>, r: Result<StructuredRecord, LoadError>) -> bool {
    &&& (r is Ok <==> (yaml_document(text) is Some && extract_sentences(
        yaml_document(text)->Some_0,
    ) is Some))
    &&& (r matches Ok(record) ==> record@ == extract_sentences(
        yaml_document(text)->Some_0,
    )->Some_0)
    &&& (r is Err && yaml_document(text) is None ==> r->Err_0 is ParseError)
    &&& (r is Err && yaml_document(text) is Some ==> r->Err_0 is SchemaMismatch)
}

/// Parses the given text under the document grammar and validates the
/// result against the schema: the whole load operation from text to a
/// record the caller exclusively owns, or to the discriminated error.
pub fn load_str(text: &str) -> (r: Result<StructuredRecord, LoadError>)
    ensures
        loads_to(text@, r),
{
    match parse_value(text) {
        Ok(value) => validate_document(value),
        Err(cause) => Err(LoadError::ParseError { cause }),
    }
}

/// Turns the outcome of reading a file into the outcome of a load: a failed
/// read becomes an I/O failure carrying the reader's cause, and text that
/// was read is parsed and validated.  The caller performs the one read and
/// hands its outcome in unchanged.
pub fn load_from_read(read: Result<String, String>) -> (r: Result<StructuredRecord, LoadError>)
    ensures
        read matches Err(cause) ==> r is Err && r->Err_0 is IoFailure && r->Err_0.spec_cause()
            == cause@,
        read matches Ok(text) ==> loads_to(text@, r),
{
    match read {
        Ok(text) => load_str(text.as_str()),
        Err(cause) => Err(LoadError::IoFailure { cause }),
    }
}

/// Loading is idempotent: two loads of the same unchanged text agree — both
/// succeed or both fail, two successful records hold identical content, and
/// two failures are of the same kind.
pub proof fn lemma_load_deterministic(
    text: Seq<char>,
    r1: Result<StructuredRecord, LoadError>,
    r2: Result<StructuredRecord, LoadError>,
)
    requires
        loads_to(text, r1),
        loads_to(text, r2),
    ensures
        r1 is Ok <==> r2 is Ok,
        r1 is Ok ==> r1->Ok_0@ == r2->Ok_0@,
        r1 is Err ==> (r1->Err_0 is ParseError <==> r2->Err_0 is ParseError),
        r1 is Err ==> (r1->Err_0 is SchemaMismatch <==> r2->Err_0 is SchemaMismatch),
{
}

} // verus!
