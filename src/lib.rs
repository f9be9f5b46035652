//! Structural self-descriptions of data types: field names, documentation and
//! metadata, with defaults propagated through the description tree.
//!
//! [`descriptor`] holds the description tree and its mathematical model,
//! [`metadata`] the hooks through which metadata values merge,
//! [`propagation`] the pass that applies them along the tree, [`builder`]
//! turns the declared shape of a type into its description, [`case`] and
//! [`docs`] read case policies and doc comment lines, [`leaves`] describes the
//! primitive and standard container types, and [`laws`] states and proves what
//! holds of every description.
pub mod builder;
pub mod case;
pub mod descriptor;
pub mod docs;
pub mod laws;
pub mod leaves;
pub mod metadata;
pub mod propagation;

pub use builder::{
    describe_enum, describe_enum_display, describe_struct, describe_tuple, describe_unit,
    metadata_form, DescribeError, FieldDecl, MetadataForm, TypeDecl, VariantDecl,
};
pub use case::{case_from_lowercase, fetch_case, CasePolicy};
pub use descriptor::{Descriptor, Entry, Kind, Variant};
pub use docs::doc_lines;
pub use leaves::Described;
pub use metadata::{IndexFlag, MetadataKind};
