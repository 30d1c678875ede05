//! Annotation resolution: recognize the record-level and field-level
//! annotation grammars, reject duplicates and unknown keys, and resolve each
//! field to the key under which its value is looked up.

use vstd::prelude::*;
use vstd::string::StringExecFns;

use crate::model::{
    AttrValue, AttrValueView, DeriveError, FieldAnnotation, FieldAnnotationView, FieldBinding,
    FieldBindingView, FieldDef, FieldDefView, RawAnnotation, RawAnnotationView, ResolvedKey,
    ResolvedKeyView, StructConfig, StructConfigView,
};

verus! {

/// What one record-level annotation group means: the only recognized key is
/// `path`, which must carry a namespace path.
pub open spec fn parse_struct_annotation_spec(a: RawAnnotationView) -> Result<
    Seq<char>,
    DeriveError,
> {
    match a {
        RawAnnotationView::KeyValue(key, value) => if key == "path"@ {
            match value {
                AttrValueView::PathVal(p) => Ok(p),
                _ => Err(DeriveError::SyntaxError),
            }
        } else {
            Err(DeriveError::InvalidStructAttributeName)
        },
        RawAnnotationView::KeyMalformed(key) => if key == "path"@ {
            Err(DeriveError::SyntaxError)
        } else {
            Err(DeriveError::InvalidStructAttributeName)
        },
        RawAnnotationView::Malformed => Err(DeriveError::SyntaxError),
    }
}

/// What one field-level annotation group means: `name` with a string literal,
/// or `hash` with an integer literal.
pub open spec fn parse_field_annotation_spec(a: RawAnnotationView) -> Result<
    FieldAnnotationView,
    DeriveError,
> {
    match a {
        RawAnnotationView::KeyValue(key, value) => if key == "name"@ {
            match value {
                AttrValueView::StrLit(s) => Ok(FieldAnnotationView::Name(s)),
                _ => Err(DeriveError::SyntaxError),
            }
        } else if key == "hash"@ {
            match value {
                AttrValueView::IntLit(n) => Ok(FieldAnnotationView::Hash(n)),
                _ => Err(DeriveError::SyntaxError),
            }
        } else {
            Err(DeriveError::InvalidFieldAttributeName)
        },
        RawAnnotationView::KeyMalformed(key) => if key == "name"@ || key == "hash"@ {
            Err(DeriveError::SyntaxError)
        } else {
            Err(DeriveError::InvalidFieldAttributeName)
        },
        RawAnnotationView::Malformed => Err(DeriveError::SyntaxError),
    }
}

/// Record-level resolution, walking the annotation groups in order: the first
/// unparsable group wins; a second `path` override is a duplicate.
pub open spec fn resolve_struct_config_rec(
    attrs: Seq<RawAnnotationView>,
    acc: Option<Seq<char>>,
) -> Result<StructConfigView, DeriveError>
    decreases attrs.len(),
{
    if attrs.len() == 0 {
        Ok(StructConfigView { path_override: acc })
    } else {
        match parse_struct_annotation_spec(attrs.first()) {
            Err(e) => Err(e),
            Ok(p) => if acc is Some {
                Err(DeriveError::DuplicateStructAttribute)
            } else {
                resolve_struct_config_rec(attrs.drop_first(), Some(p))
            },
        }
    }
}

pub open spec fn resolve_struct_config_spec(attrs: Seq<RawAnnotationView>) -> Result<
    StructConfigView,
    DeriveError,
> {
    resolve_struct_config_rec(attrs, None)
}

/// All field-level annotation groups of one field, in order; the first
/// unparsable group wins.
pub open spec fn parse_field_annotations_spec(attrs: Seq<RawAnnotationView>) -> Result<
    Seq<FieldAnnotationView>,
    DeriveError,
>
    decreases attrs.len(),
{
    if attrs.len() == 0 {
        Ok(Seq::empty())
    } else {
        match parse_field_annotation_spec(attrs.first()) {
            Err(e) => Err(e),
            Ok(a) => match parse_field_annotations_spec(attrs.drop_first()) {
                Err(e) => Err(e),
                Ok(rest) => Ok(seq![a] + rest),
            },
        }
    }
}

/// The key of one field, by exactly one of three rules: a `hash` annotation
/// gives its literal value verbatim; a `name` annotation gives the hash of its
/// string; no annotation gives the hash of the field's own identifier. More
/// than one annotation on the field is a duplicate.
pub open spec fn resolve_field_key_spec(f: FieldDefView) -> Result<ResolvedKeyView, DeriveError> {
    match parse_field_annotations_spec(f.attrs) {
        Err(e) => Err(e),
        Ok(anns) => if anns.len() > 1 {
            Err(DeriveError::DuplicateFieldAttribute)
        } else if anns.len() == 1 {
            match anns[0] {
                FieldAnnotationView::Hash(k) => Ok(ResolvedKeyView::Literal(k)),
                FieldAnnotationView::Name(s) => Ok(ResolvedKeyView::HashOf(s)),
            }
        } else {
            Ok(ResolvedKeyView::HashOf(f.name))
        },
    }
}

/// Keys for all fields, in declaration order; the first failing field aborts
/// the whole resolution, and the error reports that field's position.
pub open spec fn resolve_bindings_spec(fields: Seq<FieldDefView>) -> Result<
    Seq<FieldBindingView>,
    (int, DeriveError),
>
    decreases fields.len(),
{
    if fields.len() == 0 {
        Ok(Seq::empty())
    } else {
        match resolve_field_key_spec(fields.first()) {
            Err(e) => Err((0, e)),
            Ok(k) => match resolve_bindings_spec(fields.drop_first()) {
                Err((i, e)) => Err((i + 1, e)),
                Ok(rest) => Ok(
                    seq![FieldBindingView { name: fields.first().name, key: k }] + rest,
                ),
            },
        }
    }
}

/// True exactly when the string equals the given literal key.
fn key_is(k: &String, lit: &str) -> (r: bool)
    ensures
        r == (k@ == lit@),
{
    let s = String::from_str(lit);
    *k == s
}

/// Recognize one record-level annotation group.
pub fn parse_struct_annotation(a: &RawAnnotation) -> (r: Result<String, DeriveError>)
    ensures
        match r {
            Ok(p) => parse_struct_annotation_spec(a@) == Ok::<_, DeriveError>(p@),
            Err(e) => parse_struct_annotation_spec(a@) == Err::<Seq<char>, _>(e),
        },
{
    match a {
        RawAnnotation::KeyValue(key, value) => {
            if key_is(key, "path") {
                match value {
                    AttrValue::PathVal(p) => Ok(p.clone()),
                    _ => Err(DeriveError::SyntaxError),
                }
            } else {
                Err(DeriveError::InvalidStructAttributeName)
            }
        },
        RawAnnotation::KeyMalformed(key) => {
            if key_is(key, "path") {
                Err(DeriveError::SyntaxError)
            } else {
                Err(DeriveError::InvalidStructAttributeName)
            }
        },
        RawAnnotation::Malformed => Err(DeriveError::SyntaxError),
    }
}

/// Recognize one field-level annotation group.
pub fn parse_field_annotation(a: &RawAnnotation) -> (r: Result<FieldAnnotation, DeriveError>)
    ensures
        match r {
            Ok(ann) => parse_field_annotation_spec(a@) == Ok::<_, DeriveError>(ann@),
            Err(e) => parse_field_annotation_spec(a@) == Err::<FieldAnnotationView, _>(e),
        },
{
    match a {
        RawAnnotation::KeyValue(key, value) => {
            if key_is(key, "name") {
                match value {
                    AttrValue::StrLit(s) => Ok(FieldAnnotation::Name(s.clone())),
                    _ => Err(DeriveError::SyntaxError),
                }
            } else if key_is(key, "hash") {
                match value {
                    AttrValue::IntLit(n) => Ok(FieldAnnotation::Hash(*n)),
                    _ => Err(DeriveError::SyntaxError),
                }
            } else {
                Err(DeriveError::InvalidFieldAttributeName)
            }
        },
        RawAnnotation::KeyMalformed(key) => {
            if key_is(key, "name") || key_is(key, "hash") {
                Err(DeriveError::SyntaxError)
            } else {
                Err(DeriveError::InvalidFieldAttributeName)
            }
        },
        RawAnnotation::Malformed => Err(DeriveError::SyntaxError),
    }
}

/// The sequence of views of the annotations in a vector.
pub open spec fn attrs_view(attrs: Seq<RawAnnotation>) -> Seq<RawAnnotationView> {
    attrs.map_values(|a: RawAnnotation| a@)
}

/// Record-level resolution from a given group onward.
fn resolve_struct_config_from(
    attrs: &Vec<RawAnnotation>,
    i: usize,
    acc: Option<String>,
) -> (r: Result<StructConfig, DeriveError>)
    requires
        i <= attrs@.len(),
    ensures
        match r {
            Ok(c) => resolve_struct_config_rec(
                attrs_view(attrs@).skip(i as int),
                match acc {
                    Some(p) => Some(p@),
                    None => None,
                },
            ) == Ok::<_, DeriveError>(c@),
            Err(e) => resolve_struct_config_rec(
                attrs_view(attrs@).skip(i as int),
                match acc {
                    Some(p) => Some(p@),
                    None => None,
                },
            ) == Err::<StructConfigView, _>(e),
        },
    decreases attrs@.len() - i,
{
    if i == attrs.len() {
        assert(attrs_view(attrs@).skip(i as int) =~= Seq::empty());
        Ok(StructConfig { path_override: acc })
    } else {
        let ghost rest = attrs_view(attrs@).skip(i as int);
        assert(rest.first() == attrs@[i as int]@);
        match parse_struct_annotation(&attrs[i]) {
            Err(e) => Err(e),
            Ok(p) => {
                if acc.is_some() {
                    Err(DeriveError::DuplicateStructAttribute)
                } else {
                    assert(rest.drop_first() =~= attrs_view(attrs@).skip(i as int + 1));
                    resolve_struct_config_from(attrs, i + 1, Some(p))
                }
            },
        }
    }
}

/// Resolve the record-level annotation groups into a configuration.
pub fn resolve_struct_config(attrs: &Vec<RawAnnotation>) -> (r: Result<StructConfig, DeriveError>)
    ensures
        match r {
            Ok(c) => resolve_struct_config_spec(attrs_view(attrs@)) == Ok::<_, DeriveError>(c@),
            Err(e) => resolve_struct_config_spec(attrs_view(attrs@)) == Err::<StructConfigView, _>(
                e,
            ),
        },
{
    assert(attrs_view(attrs@).skip(0) =~= attrs_view(attrs@));
    resolve_struct_config_from(attrs, 0, None)
}

/// Parse the field-level annotation groups from a given group onward.
fn parse_field_annotations_from(attrs: &Vec<RawAnnotation>, i: usize) -> (r: Result<
    Vec<FieldAnnotation>,
    DeriveError,
>)
    requires
        i <= attrs@.len(),
    ensures
        match r {
            Ok(anns) => parse_field_annotations_spec(attrs_view(attrs@).skip(i as int)) == Ok::<
                _,
                DeriveError,
            >(anns@.map_values(|a: FieldAnnotation| a@)),
            Err(e) => parse_field_annotations_spec(attrs_view(attrs@).skip(i as int)) == Err::<
                Seq<FieldAnnotationView>,
                _,
            >(e),
        },
    decreases attrs@.len() - i,
{
    if i == attrs.len() {
        assert(attrs_view(attrs@).skip(i as int) =~= Seq::empty());
        let anns: Vec<FieldAnnotation> = Vec::new();
        assert(anns@.map_values(|a: FieldAnnotation| a@) =~= Seq::empty());
        Ok(anns)
    } else {
        let ghost rest = attrs_view(attrs@).skip(i as int);
        assert(rest.first() == attrs@[i as int]@);
        match parse_field_annotation(&attrs[i]) {
            Err(e) => Err(e),
            Ok(ann) => {
                assert(rest.drop_first() =~= attrs_view(attrs@).skip(i as int + 1));
                match parse_field_annotations_from(attrs, i + 1) {
                    Err(e) => Err(e),
                    Ok(mut rest_anns) => {
                        let ghost rest_views = rest_anns@.map_values(|a: FieldAnnotation| a@);
                        rest_anns.insert(0, ann);
                        assert(rest_anns@.map_values(|a: FieldAnnotation| a@) =~= seq![ann@]
                            + rest_views);
                        Ok(rest_anns)
                    },
                }
            },
        }
    }
}

/// Resolve the key of one field.
pub fn resolve_field_key(f: &FieldDef) -> (r: Result<ResolvedKey, DeriveError>)
    ensures
        match r {
            Ok(k) => resolve_field_key_spec(f@) == Ok::<_, DeriveError>(k@),
            Err(e) => resolve_field_key_spec(f@) == Err::<ResolvedKeyView, _>(e),
        },
{
    assert(attrs_view(f.attrs@).skip(0) =~= f@.attrs);
    match parse_field_annotations_from(&f.attrs, 0) {
        Err(e) => Err(e),
        Ok(anns) => {
            let ghost ann_views = anns@.map_values(|a: FieldAnnotation| a@);
            if anns.len() > 1 {
                Err(DeriveError::DuplicateFieldAttribute)
            } else if anns.len() == 1 {
                match &anns[0] {
                    FieldAnnotation::Hash(k) => Ok(ResolvedKey::Literal(*k)),
                    FieldAnnotation::Name(s) => Ok(ResolvedKey::HashOf(s.clone())),
                }
            } else {
                Ok(ResolvedKey::HashOf(f.name.clone()))
            }
        },
    }
}

/// The sequence of views of the fields in a vector.
pub open spec fn fields_view(fields: Seq<FieldDef>) -> Seq<FieldDefView> {
    fields.map_values(|f: FieldDef| f@)
}

/// Resolve the bindings of all fields from a given field onward.
fn resolve_bindings_from(fields: &Vec<FieldDef>, i: usize) -> (r: Result<
    Vec<FieldBinding>,
    (usize, DeriveError),
>)
    requires
        i <= fields@.len(),
    ensures
        match r {
            Ok(bs) => resolve_bindings_spec(fields_view(fields@).skip(i as int)) == Ok::<
                _,
                (int, DeriveError),
            >(bs@.map_values(|b: FieldBinding| b@)),
            Err((j, e)) => i <= j < fields@.len() && resolve_bindings_spec(
                fields_view(fields@).skip(i as int),
            ) == Err::<Seq<FieldBindingView>, _>((j - i, e)),
        },
    decreases fields@.len() - i,
{
    if i == fields.len() {
        assert(fields_view(fields@).skip(i as int) =~= Seq::empty());
        let bs: Vec<FieldBinding> = Vec::new();
        assert(bs@.map_values(|b: FieldBinding| b@) =~= Seq::empty());
        Ok(bs)
    } else {
        let ghost rest = fields_view(fields@).skip(i as int);
        assert(rest.first() == fields@[i as int]@);
        match resolve_field_key(&fields[i]) {
            Err(e) => Err((i, e)),
            Ok(k) => {
                assert(rest.drop_first() =~= fields_view(fields@).skip(i as int + 1));
                match resolve_bindings_from(fields, i + 1) {
                    Err((j, e)) => Err((j, e)),
                    Ok(mut rest_bs) => {
                        let ghost rest_views = rest_bs@.map_values(|b: FieldBinding| b@);
                        let binding = FieldBinding { name: fields[i].name.clone(), key: k };
                        let ghost binding_view = binding@;
                        rest_bs.insert(0, binding);
                        assert(rest_bs@.map_values(|b: FieldBinding| b@) =~= seq![binding_view]
                            + rest_views);
                        Ok(rest_bs)
                    },
                }
            },
        }
    }
}

/// Resolve every field of the record to its binding, in declaration order.
pub fn resolve_bindings(fields: &Vec<FieldDef>) -> (r: Result<
    Vec<FieldBinding>,
    (usize, DeriveError),
>)
    ensures
        match r {
            Ok(bs) => resolve_bindings_spec(fields_view(fields@)) == Ok::<_, (int, DeriveError)>(
                bs@.map_values(|b: FieldBinding| b@),
            ),
            Err((j, e)) => j < fields@.len() && resolve_bindings_spec(fields_view(fields@))
                == Err::<Seq<FieldBindingView>, _>((j as int, e)),
        },
{
    assert(fields_view(fields@).skip(0) =~= fields_view(fields@));
    resolve_bindings_from(fields, 0)
}

} // verus!
