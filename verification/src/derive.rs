//! The derivation pipeline for one record: resolve the record-level
//! configuration, check the record's shape, resolve every field's key, and
//! emit the implementation -- or stop at the first error and surface it.

use vstd::prelude::*;
use vstd::string::StringExecFns;

use crate::attrs::{
    fields_view, resolve_bindings, resolve_bindings_spec, resolve_struct_config,
    resolve_struct_config_spec,
};
use crate::emit::{emit_error, emit_impl, render_error_spec, render_impl_spec};
use crate::model::{
    config_namespace, DeriveError, Diagnostic, FieldDef, FieldDefView, RecordDefinition,
    RecordDefinitionView, RecordShape, RecordShapeView, StructConfig, StructConfigView,
};

verus! {

/// Derivation of a record already known to have named fields: resolve all
/// field keys, then render the implementation with the configured namespace.
pub open spec fn derive_named_struct_spec(
    name: Seq<char>,
    config: StructConfigView,
    fields: Seq<FieldDefView>,
) -> Result<Seq<char>, (Option<int>, DeriveError)> {
    match resolve_bindings_spec(fields) {
        Err((i, e)) => Err((Some(i), e)),
        Ok(bs) => Ok(render_impl_spec(name, config_namespace(config), bs)),
    }
}

/// The whole derivation of one record definition: record-level annotations
/// are resolved first, then the shape is checked, then the fields.
pub open spec fn derive_spec(d: RecordDefinitionView) -> Result<
    Seq<char>,
    (Option<int>, DeriveError),
> {
    match resolve_struct_config_spec(d.attrs) {
        Err(e) => Err((None, e)),
        Ok(config) => match d.shape {
            RecordShapeView::Named(fields) => derive_named_struct_spec(d.name, config, fields),
            _ => Err((None, DeriveError::UnsupportedShape)),
        },
    }
}

/// The source handed back for one record definition: the generated
/// implementation on success, a compile-time diagnostic on failure.
pub open spec fn prc_derive_spec(d: RecordDefinitionView) -> Seq<char> {
    match derive_spec(d) {
        Ok(s) => s,
        Err((_, e)) => render_error_spec(e),
    }
}

/// The diagnostic reports the given error and field position.
pub open spec fn diag_matches(d: Diagnostic, err: (Option<int>, DeriveError)) -> bool {
    &&& d.error == err.1
    &&& match (d.field_index, err.0) {
        (Some(a), Some(b)) => a as int == b,
        (None, None) => true,
        _ => false,
    }
}

/// The namespace the generated implementation references: the override if one
/// was given, the built-in default otherwise.
pub fn namespace_of(config: &StructConfig) -> (r: String)
    ensures
        r@ == config_namespace(config@),
{
    match &config.path_override {
        Some(p) => p.clone(),
        None => String::from_str("::prc"),
    }
}

/// Derive the implementation of a record with named fields.
pub fn derive_named_struct(name: &String, config: &StructConfig, fields: &Vec<FieldDef>) -> (r:
    Result<String, Diagnostic>)
    ensures
        match r {
            Ok(s) => derive_named_struct_spec(name@, config@, fields_view(fields@)) == Ok::<
                _,
                (Option<int>, DeriveError),
            >(s@),
            Err(d) => ({
                let spec_r = derive_named_struct_spec(name@, config@, fields_view(fields@));
                &&& spec_r is Err
                &&& diag_matches(d, spec_r->Err_0)
            }),
        },
{
    match resolve_bindings(fields) {
        Err((i, e)) => Err(Diagnostic { error: e, field_index: Some(i) }),
        Ok(bindings) => {
            let path = namespace_of(config);
            Ok(emit_impl(name, &path, &bindings))
        },
    }
}

/// Run the whole derivation for one record definition.
pub fn derive_or_error(def: &RecordDefinition) -> (r: Result<String, Diagnostic>)
    ensures
        match r {
            Ok(s) => derive_spec(def@) == Ok::<_, (Option<int>, DeriveError)>(s@),
            Err(d) => ({
                let spec_r = derive_spec(def@);
                &&& spec_r is Err
                &&& diag_matches(d, spec_r->Err_0)
            }),
        },
{
    let config = match resolve_struct_config(&def.attrs) {
        Err(e) => {
            return Err(Diagnostic { error: e, field_index: None });
        },
        Ok(c) => c,
    };
    match &def.shape {
        RecordShape::Named(fields) => derive_named_struct(&def.name, &config, fields),
        RecordShape::Tuple => Err(
            Diagnostic { error: DeriveError::UnsupportedShape, field_index: None },
        ),
        RecordShape::Unit => Err(
            Diagnostic { error: DeriveError::UnsupportedShape, field_index: None },
        ),
        RecordShape::NotARecord => Err(
            Diagnostic { error: DeriveError::UnsupportedShape, field_index: None },
        ),
    }
}

/// Derive on one record definition, turning a failure into a compile-time
/// diagnostic in the emitted source.
pub fn prc_derive(def: &RecordDefinition) -> (r: String)
    ensures
        r@ == prc_derive_spec(def@),
{
    match derive_or_error(def) {
        Ok(s) => s,
        Err(d) => emit_error(d.error),
    }
}

} // verus!
