//! Layered configuration: tri-state fields, the merge rule that resolves a
//! layer against its parent, and the synthesis of a record's `Default` and
//! `InheritAble` impls from its schema.

pub mod derive;
pub mod field;
pub mod policy;
pub mod record;

pub use derive::config_derive;
pub use field::ConfigField;
pub use field::InheritAble;
