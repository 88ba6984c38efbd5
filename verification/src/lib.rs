mod error;
mod loader;
mod model;
mod record;
mod yaml;

pub use error::LoadError;
pub use loader::lemma_load_deterministic;
pub use loader::load_from_read;
pub use loader::load_str;
pub use loader::loads_to;
pub use loader::validate_document;
pub use model::NodeModel;
pub use model::all_text;
pub use model::extract_sentences;
pub use model::lookup_entry;
pub use model::sentences_key;
pub use model::texts_of;
pub use record::StructuredRecord;
pub use yaml::value_model;
pub use yaml::yaml_document;
