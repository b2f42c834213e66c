//! A runtime reflection layer: values of heterogeneous concrete types are
//! held behind a single type-erased handle that supports typed access,
//! polymorphic clone, wholesale replacement (`set`) and semantic merge
//! (`apply`), while a runtime type token keeps every typed operation safe.

mod erased;
mod laws;
mod model;
mod property;
mod tag;

pub use erased::AsProperties;
pub use laws::lemma_apply_agg_fields;
pub use laws::lemma_apply_preserves_type;
pub use laws::lemma_apply_preserves_wf;
pub use laws::lemma_leaf_apply_is_set;
pub use laws::lemma_write_then_read;
pub use erased::Property;
pub use erased::PropertyVal;
pub use model::PropModel;
pub use model::agg_fields;
pub use model::agg_name;
pub use model::field_index;
pub use model::has_field;
pub use model::lemma_field_index;
pub use model::merge_ok;
pub use model::merged;
pub use model::names_unique;
pub use model::tag_of;
pub use model::wf_model;
pub use property::DynProperty;
pub use property::Entry;
pub use property::NamedValue;
pub use property::Properties;
pub use property::PropertyError;
pub use property::entries_model;
pub use property::list_model;
pub use property::model;
pub use tag::Tag;
pub use tag::TypeTag;
