//! Extraction and validation of struct-level `model` annotations.
//!
//! The library reads the annotations attached to a model struct, recognises
//! the ones in the `model` namespace, unpacks their nested grammar of bare
//! words and `name = value` pairs, and produces one validated configuration
//! record: the collection name under which the model's documents are stored
//! and a flag controlling serde-related checks in generated code.
//! Annotations outside the namespace are ignored; malformed input inside it
//! aborts processing with a typed error.

mod error;
mod inflect;
mod laws;
mod meta;
mod model;

pub use error::ErrorModel;
pub use error::ModelAttrError;
pub use inflect::plural_of;
pub use inflect::table_case_of;
pub use laws::attr_explicit_name;
pub use laws::attr_mentions_skip;
pub use laws::attrs_explicit_name;
pub use laws::attrs_mention_skip;
pub use laws::entries_explicit_name;
pub use laws::entries_mention_skip;
pub use laws::lemma_default_collection_name;
pub use laws::lemma_deterministic;
pub use laws::lemma_empty_name_rejected;
pub use laws::lemma_explicit_collection_name;
pub use laws::lemma_extract_ok_iff_valid;
pub use laws::lemma_finalize_idempotent;
pub use laws::lemma_foreign_attr_ignored;
pub use laws::lemma_non_string_value_rejected;
pub use laws::lemma_skip_serde_checks;
pub use laws::lemma_unknown_key_rejected;
pub use laws::lemma_unknown_word_rejected;
pub use laws::model_entries;
pub use laws::valid_attr;
pub use laws::valid_attrs;
pub use laws::valid_entry;
pub use meta::Attr;
pub use meta::AttrModel;
pub use meta::Entry;
pub use meta::EntryModel;
pub use meta::Lit;
pub use meta::LitModel;
pub use meta::Meta;
pub use meta::MetaModel;
pub use meta::attrs_view;
pub use meta::entries_view;
pub use model::ConfigModel;
pub use model::MetaModelStructData;
pub use model::apply_attr;
pub use model::apply_entries;
pub use model::apply_entry;
pub use model::apply_kv;
pub use model::apply_meta;
pub use model::apply_word;
pub use model::collection_name_key;
pub use model::derived_collection_name;
pub use model::extract;
pub use model::finalize;
pub use model::fold_attrs;
pub use model::handle_ident_attr;
pub use model::handle_kv_attr;
pub use model::initial_config;
pub use model::is_model_attr;
pub use model::meta_name;
pub use model::namespace_ident;
pub use model::result_view;
pub use model::skip_serde_checks_word;
