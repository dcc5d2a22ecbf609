//! Structured changelog records: a typed data model for hand-authored and
//! machine-generated release-note entries, a compact `repo#number` reference
//! codec, dual-format (TOML with comments / JSON) document decoding, authoring
//! validation, and aggregation of entries from several sources.

pub mod audience;
pub mod changelog;
pub mod doc;
pub mod entry;
pub mod errors;
pub mod numbers;
pub mod reference;
pub mod text;

pub use audience::SdkAffected;
pub use changelog::Changelog;
pub use entry::{HandAuthoredEntry, Meta, SdkModelChangeKind, SdkModelEntry};
pub use errors::{FormatError, SchemaError, ValidationError};
pub use reference::Reference;
