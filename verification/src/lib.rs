//! Build-time binding generator for a keyed binary container format.
//!
//! Given a description of a record type with named fields, the generator
//! resolves a 40-bit lookup key for every field -- by default the hash of the
//! field's own identifier, overridable per field with an explicit key or an
//! alternate string -- and emits the source of a deserialization
//! implementation that reads each field from the container by its key.

pub mod attrs;
pub mod derive;
pub mod emit;
pub mod laws;
pub mod model;

pub use derive::{derive_or_error, prc_derive};
pub use model::{
    AttrValue, AttrValueView, Diagnostic, DeriveError, FieldAnnotation, FieldAnnotationView,
    FieldBinding, FieldBindingView, FieldDef, FieldDefView, RawAnnotation, RawAnnotationView,
    RecordDefinition, RecordDefinitionView, RecordShape, RecordShapeView, ResolvedKey,
    ResolvedKeyView, StructConfig, StructConfigView,
};
