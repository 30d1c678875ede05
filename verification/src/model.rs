//! Data model for one derivation: the record definition as handed to the
//! generator, its annotations, and the resolved per-field lookup keys.

use vstd::prelude::*;

verus! {

/// The right-hand side of a `key = value` pair inside an annotation group.
#[derive(Clone, Debug, PartialEq, Eq)]
pub enum AttrValue {
    /// A string literal, holding its unescaped contents.
    StrLit(String),
    /// An integer literal.
    IntLit(u64),
    /// A namespace path, as text.
    PathVal(String),
}

pub enum AttrValueView {
    StrLit(Seq<char>),
    IntLit(u64),
    PathVal(Seq<char>),
}

impl View for AttrValue {
    type V = AttrValueView;

    open spec fn view(&self) -> AttrValueView {
        match self {
            AttrValue::StrLit(s) => AttrValueView::StrLit(s@),
            AttrValue::IntLit(n) => AttrValueView::IntLit(*n),
            AttrValue::PathVal(p) => AttrValueView::PathVal(p@),
        }
    }
}

/// One annotation group, after tokenizing: either a well-formed `key = value`
/// pair, a recognizable key whose value tokens could not be read, or contents
/// that do not have the `key = value` shape at all.
#[derive(Clone, Debug, PartialEq, Eq)]
pub enum RawAnnotation {
    KeyValue(String, AttrValue),
    KeyMalformed(String),
    Malformed,
}

pub enum RawAnnotationView {
    KeyValue(Seq<char>, AttrValueView),
    KeyMalformed(Seq<char>),
    Malformed,
}

impl View for RawAnnotation {
    type V = RawAnnotationView;

    open spec fn view(&self) -> RawAnnotationView {
        match self {
            RawAnnotation::KeyValue(k, v) => RawAnnotationView::KeyValue(k@, v@),
            RawAnnotation::KeyMalformed(k) => RawAnnotationView::KeyMalformed(k@),
            RawAnnotation::Malformed => RawAnnotationView::Malformed,
        }
    }
}

/// One named field of the record, with the annotation groups attached to it.
#[derive(Clone, Debug, PartialEq, Eq)]
pub struct FieldDef {
    pub name: String,
    pub attrs: Vec<RawAnnotation>,
}

pub struct FieldDefView {
    pub name: Seq<char>,
    pub attrs: Seq<RawAnnotationView>,
}

impl View for FieldDef {
    type V = FieldDefView;

    open spec fn view(&self) -> FieldDefView {
        FieldDefView {
            name: self.name@,
            attrs: self.attrs@.map_values(|a: RawAnnotation| a@),
        }
    }
}

/// The shape of the record under derivation. Only a record with named fields
/// can be derived; the other shapes are rejected.
#[derive(Clone, Debug, PartialEq, Eq)]
pub enum RecordShape {
    Named(Vec<FieldDef>),
    Tuple,
    Unit,
    NotARecord,
}

pub enum RecordShapeView {
    Named(Seq<FieldDefView>),
    Tuple,
    Unit,
    NotARecord,
}

impl View for RecordShape {
    type V = RecordShapeView;

    open spec fn view(&self) -> RecordShapeView {
        match self {
            RecordShape::Named(fields) => RecordShapeView::Named(
                fields@.map_values(|f: FieldDef| f@),
            ),
            RecordShape::Tuple => RecordShapeView::Tuple,
            RecordShape::Unit => RecordShapeView::Unit,
            RecordShape::NotARecord => RecordShapeView::NotARecord,
        }
    }
}

/// The input of one derivation: the record's type name, the annotation groups
/// attached to the record itself, and its shape.
#[derive(Clone, Debug, PartialEq, Eq)]
pub struct RecordDefinition {
    pub name: String,
    pub attrs: Vec<RawAnnotation>,
    pub shape: RecordShape,
}

pub struct RecordDefinitionView {
    pub name: Seq<char>,
    pub attrs: Seq<RawAnnotationView>,
    pub shape: RecordShapeView,
}

impl View for RecordDefinition {
    type V = RecordDefinitionView;

    open spec fn view(&self) -> RecordDefinitionView {
        RecordDefinitionView {
            name: self.name@,
            attrs: self.attrs@.map_values(|a: RawAnnotation| a@),
            shape: self.shape@,
        }
    }
}

/// A recognized field-level annotation: override the field's key either with
/// the hash of a given string or with a literal key value.
#[derive(Clone, Debug, PartialEq, Eq)]
pub enum FieldAnnotation {
    Name(String),
    Hash(u64),
}

pub enum FieldAnnotationView {
    Name(Seq<char>),
    Hash(u64),
}

impl View for FieldAnnotation {
    type V = FieldAnnotationView;

    open spec fn view(&self) -> FieldAnnotationView {
        match self {
            FieldAnnotation::Name(s) => FieldAnnotationView::Name(s@),
            FieldAnnotation::Hash(n) => FieldAnnotationView::Hash(*n),
        }
    }
}

/// How a field's lookup key is obtained: either a literal key value, taken
/// verbatim, or the hash of a string computed by the runtime's hash function.
#[derive(Clone, Debug, PartialEq, Eq)]
pub enum ResolvedKey {
    Literal(u64),
    HashOf(String),
}

pub enum ResolvedKeyView {
    Literal(u64),
    HashOf(Seq<char>),
}

impl View for ResolvedKey {
    type V = ResolvedKeyView;

    open spec fn view(&self) -> ResolvedKeyView {
        match self {
            ResolvedKey::Literal(n) => ResolvedKeyView::Literal(*n),
            ResolvedKey::HashOf(s) => ResolvedKeyView::HashOf(s@),
        }
    }
}

/// One field of the generated implementation: the field's identifier and the
/// key under which its value is looked up.
#[derive(Clone, Debug, PartialEq, Eq)]
pub struct FieldBinding {
    pub name: String,
    pub key: ResolvedKey,
}

pub struct FieldBindingView {
    pub name: Seq<char>,
    pub key: ResolvedKeyView,
}

impl View for FieldBinding {
    type V = FieldBindingView;

    open spec fn view(&self) -> FieldBindingView {
        FieldBindingView { name: self.name@, key: self.key@ }
    }
}

/// The resolved record-level configuration: at most one namespace override.
#[derive(Clone, Debug, PartialEq, Eq)]
pub struct StructConfig {
    pub path_override: Option<String>,
}

pub struct StructConfigView {
    pub path_override: Option<Seq<char>>,
}

impl View for StructConfig {
    type V = StructConfigView;

    open spec fn view(&self) -> StructConfigView {
        match &self.path_override {
            Some(p) => StructConfigView { path_override: Some(p@) },
            None => StructConfigView { path_override: None },
        }
    }
}

/// The namespace used to reference the runtime when no override is given.
pub open spec fn default_namespace() -> Seq<char> {
    "::prc"@
}

/// The namespace a configuration resolves to: the override if present, the
/// built-in default otherwise.
pub open spec fn config_namespace(c: StructConfigView) -> Seq<char> {
    match c.path_override {
        Some(p) => p,
        None => default_namespace(),
    }
}

/// Everything that can go wrong while resolving annotations and deriving.
#[derive(Clone, Copy, Debug, PartialEq, Eq, Structural)]
pub enum DeriveError {
    /// The record is not a struct with named fields.
    UnsupportedShape,
    /// A record-level annotation uses a key other than `path`.
    InvalidStructAttributeName,
    /// More than one `path` override across the record-level annotations.
    DuplicateStructAttribute,
    /// A field-level annotation uses a key other than `name` or `hash`.
    InvalidFieldAttributeName,
    /// More than one recognized annotation on a single field.
    DuplicateFieldAttribute,
    /// An annotation group whose contents do not parse as `key = value`.
    SyntaxError,
}

/// A diagnostic: the error, and the index of the offending field where the
/// error is tied to one field.
#[derive(Clone, Copy, Debug, PartialEq, Eq)]
pub struct Diagnostic {
    pub error: DeriveError,
    pub field_index: Option<usize>,
}

} // verus!
