//! The guarantees of the key-resolution rules and of the derivation pipeline,
//! stated and proved over the specification functions that the executable
//! functions are verified against.

use vstd::prelude::*;

use crate::attrs::{
    parse_field_annotation_spec, parse_field_annotations_spec, parse_struct_annotation_spec,
    resolve_bindings_spec, resolve_field_key_spec, resolve_struct_config_rec,
    resolve_struct_config_spec,
};
use crate::derive::{derive_spec, prc_derive_spec};
use crate::emit::render_impl_spec;
use crate::model::{
    default_namespace, AttrValueView, DeriveError, FieldAnnotationView, FieldBindingView,
    FieldDefView, RawAnnotationView, RecordDefinitionView, RecordShapeView, ResolvedKeyView,
    StructConfigView,
};

verus! {

/// A field with no annotations resolves to the hash of its own identifier.
pub proof fn lemma_unannotated_field(f: FieldDefView)
    requires
        f.attrs.len() == 0,
    ensures
        resolve_field_key_spec(f) == Ok::<_, DeriveError>(ResolvedKeyView::HashOf(f.name)),
{
    assert(parse_field_annotations_spec(f.attrs) == Ok::<_, DeriveError>(
        Seq::<FieldAnnotationView>::empty(),
    ));
}

/// For a record whose fields carry no annotations, key resolution succeeds
/// and gives every field the hash of its own identifier, in declaration
/// order.
pub proof fn lemma_default_keys(fields: Seq<FieldDefView>)
    requires
        forall|i: int| 0 <= i < fields.len() ==> (#[trigger] fields[i]).attrs.len() == 0,
    ensures
        resolve_bindings_spec(fields) is Ok,
        resolve_bindings_spec(fields)->Ok_0.len() == fields.len(),
        forall|i: int|
            0 <= i < fields.len() ==> #[trigger] resolve_bindings_spec(fields)->Ok_0[i] == (
            FieldBindingView { name: fields[i].name, key: ResolvedKeyView::HashOf(fields[i].name) }),
    decreases fields.len(),
{
    if fields.len() > 0 {
        let rest = fields.drop_first();
        lemma_unannotated_field(fields.first());
        assert forall|j: int| 0 <= j < rest.len() implies (#[trigger] rest[j]).attrs.len()
            == 0 by {
            assert(rest[j] == fields[j + 1]);
        }
        lemma_default_keys(rest);
        let bindings = resolve_bindings_spec(fields)->Ok_0;
        assert forall|i: int| 0 <= i < fields.len() implies #[trigger] bindings[i] == (
        FieldBindingView {
            name: fields[i].name,
            key: ResolvedKeyView::HashOf(fields[i].name),
        }) by {
            if i > 0 {
                assert(bindings[i] == resolve_bindings_spec(rest)->Ok_0[i - 1]);
                assert(rest[i - 1] == fields[i]);
            }
        }
    }
}

/// For a record definition with named fields and no annotations at all, the
/// derivation succeeds, references the default namespace, and reads every
/// field under the hash of the field's own identifier, in declaration order.
pub proof fn lemma_unannotated_record(d: RecordDefinitionView)
    requires
        d.attrs.len() == 0,
        d.shape is Named,
        forall|i: int|
            0 <= i < d.shape->Named_0.len() ==> (#[trigger] d.shape->Named_0[i]).attrs.len() == 0,
    ensures
        resolve_bindings_spec(d.shape->Named_0) is Ok,
        ({
            let fields = d.shape->Named_0;
            let bindings = resolve_bindings_spec(fields)->Ok_0;
            &&& bindings.len() == fields.len()
            &&& forall|i: int|
                0 <= i < fields.len() ==> #[trigger] bindings[i] == (FieldBindingView {
                    name: fields[i].name,
                    key: ResolvedKeyView::HashOf(fields[i].name),
                })
            &&& derive_spec(d) == Ok::<_, (Option<int>, DeriveError)>(
                render_impl_spec(d.name, default_namespace(), bindings),
            )
        }),
{
    assert(resolve_struct_config_spec(d.attrs) == Ok::<_, DeriveError>(
        StructConfigView { path_override: None },
    ));
    lemma_default_keys(d.shape->Named_0);
}

/// A field annotated `hash = K` resolves to the key K itself, verbatim,
/// whatever the field's own identifier is.
pub proof fn lemma_hash_override(f: FieldDefView, k: u64)
    requires
        f.attrs =~= seq![RawAnnotationView::KeyValue("hash"@, AttrValueView::IntLit(k))],
    ensures
        resolve_field_key_spec(f) == Ok::<_, DeriveError>(ResolvedKeyView::Literal(k)),
{
    reveal_strlit("hash");
    reveal_strlit("name");
    assert("hash"@ != "name"@) by {
        assert("hash"@[0] == 'h');
        assert("name"@[0] == 'n');
    }
    let a0 = RawAnnotationView::KeyValue("hash"@, AttrValueView::IntLit(k));
    assert(f.attrs.first() == a0);
    assert(parse_field_annotation_spec(a0) == Ok::<_, DeriveError>(FieldAnnotationView::Hash(k)));
    assert(f.attrs.drop_first() =~= Seq::<RawAnnotationView>::empty());
    assert(parse_field_annotations_spec(f.attrs.drop_first()) == Ok::<_, DeriveError>(
        Seq::<FieldAnnotationView>::empty(),
    ));
    assert(seq![FieldAnnotationView::Hash(k)] + Seq::<FieldAnnotationView>::empty()
        =~= seq![FieldAnnotationView::Hash(k)]);
    assert(parse_field_annotations_spec(f.attrs) == Ok::<_, DeriveError>(
        seq![FieldAnnotationView::Hash(k)],
    ));
}

/// A field annotated `name = "s"` resolves to the hash of the string s,
/// whatever the field's own identifier is.
pub proof fn lemma_name_override(f: FieldDefView, s: Seq<char>)
    requires
        f.attrs =~= seq![RawAnnotationView::KeyValue("name"@, AttrValueView::StrLit(s))],
    ensures
        resolve_field_key_spec(f) == Ok::<_, DeriveError>(ResolvedKeyView::HashOf(s)),
{
    let a0 = RawAnnotationView::KeyValue("name"@, AttrValueView::StrLit(s));
    assert(f.attrs.first() == a0);
    assert(parse_field_annotation_spec(a0) == Ok::<_, DeriveError>(FieldAnnotationView::Name(s)));
    assert(f.attrs.drop_first() =~= Seq::<RawAnnotationView>::empty());
    assert(parse_field_annotations_spec(f.attrs.drop_first()) == Ok::<_, DeriveError>(
        Seq::<FieldAnnotationView>::empty(),
    ));
    assert(seq![FieldAnnotationView::Name(s)] + Seq::<FieldAnnotationView>::empty()
        =~= seq![FieldAnnotationView::Name(s)]);
    assert(parse_field_annotations_spec(f.attrs) == Ok::<_, DeriveError>(
        seq![FieldAnnotationView::Name(s)],
    ));
}

/// Parsing the annotation groups of a field succeeds exactly when every group
/// parses, and then yields one recognized annotation per group.
pub proof fn lemma_all_annotations_parse(attrs: Seq<RawAnnotationView>)
    requires
        forall|i: int|
            0 <= i < attrs.len() ==> #[trigger] parse_field_annotation_spec(attrs[i]) is Ok,
    ensures
        parse_field_annotations_spec(attrs) is Ok,
        parse_field_annotations_spec(attrs)->Ok_0.len() == attrs.len(),
    decreases attrs.len(),
{
    if attrs.len() > 0 {
        let rest = attrs.drop_first();
        assert(parse_field_annotation_spec(attrs[0]) is Ok);
        assert forall|j: int| 0 <= j < rest.len() implies #[trigger] parse_field_annotation_spec(
            rest[j],
        ) is Ok by {
            assert(rest[j] == attrs[j + 1]);
        }
        lemma_all_annotations_parse(rest);
    }
}

/// A field carrying more than one annotation group, each of them recognized,
/// is rejected as a duplicate field attribute.
pub proof fn lemma_duplicate_field_annotation(f: FieldDefView)
    requires
        f.attrs.len() >= 2,
        forall|i: int|
            0 <= i < f.attrs.len() ==> #[trigger] parse_field_annotation_spec(f.attrs[i]) is Ok,
    ensures
        resolve_field_key_spec(f) == Err::<ResolvedKeyView, _>(DeriveError::DuplicateFieldAttribute),
{
    lemma_all_annotations_parse(f.attrs);
}

/// Key resolution over the fields stops at the first failing field and
/// reports its position and error.
pub proof fn lemma_bindings_error_at(fields: Seq<FieldDefView>, idx: int)
    requires
        0 <= idx < fields.len(),
        forall|i: int| 0 <= i < idx ==> #[trigger] resolve_field_key_spec(fields[i]) is Ok,
        resolve_field_key_spec(fields[idx]) is Err,
    ensures
        resolve_bindings_spec(fields) == Err::<Seq<FieldBindingView>, _>(
            (idx, resolve_field_key_spec(fields[idx])->Err_0),
        ),
    decreases idx,
{
    if idx > 0 {
        let rest = fields.drop_first();
        assert(resolve_field_key_spec(fields[0]) is Ok);
        assert forall|j: int| 0 <= j < idx - 1 implies #[trigger] resolve_field_key_spec(
            rest[j],
        ) is Ok by {
            assert(rest[j] == fields[j + 1]);
        }
        assert(rest[idx - 1] == fields[idx]);
        lemma_bindings_error_at(rest, idx - 1);
    }
}

/// A derivation whose record carries a field with more than one recognized
/// annotation group fails with a duplicate-field-attribute diagnostic at that
/// field, provided the record-level annotations resolve and every earlier
/// field resolves.
pub proof fn lemma_duplicate_field_annotation_rejects_derivation(d: RecordDefinitionView, idx: int)
    requires
        resolve_struct_config_spec(d.attrs) is Ok,
        d.shape is Named,
        0 <= idx < d.shape->Named_0.len(),
        forall|i: int|
            0 <= i < idx ==> #[trigger] resolve_field_key_spec(d.shape->Named_0[i]) is Ok,
        d.shape->Named_0[idx].attrs.len() >= 2,
        forall|i: int|
            0 <= i < d.shape->Named_0[idx].attrs.len() ==> #[trigger] parse_field_annotation_spec(
                d.shape->Named_0[idx].attrs[i],
            ) is Ok,
    ensures
        derive_spec(d) == Err::<Seq<char>, _>(
            (Some(idx), DeriveError::DuplicateFieldAttribute),
        ),
{
    lemma_duplicate_field_annotation(d.shape->Named_0[idx]);
    lemma_bindings_error_at(d.shape->Named_0, idx);
}

/// A record carrying more than one recognized `path` annotation is rejected
/// as a duplicate struct attribute, and so is its whole derivation, whatever
/// the record's shape.
pub proof fn lemma_duplicate_path_annotation(d: RecordDefinitionView)
    requires
        d.attrs.len() >= 2,
        forall|i: int|
            0 <= i < d.attrs.len() ==> #[trigger] parse_struct_annotation_spec(d.attrs[i]) is Ok,
    ensures
        resolve_struct_config_spec(d.attrs) == Err::<StructConfigView, _>(
            DeriveError::DuplicateStructAttribute,
        ),
        derive_spec(d) == Err::<Seq<char>, _>(
            (None::<int>, DeriveError::DuplicateStructAttribute),
        ),
{
    let rest = d.attrs.drop_first();
    assert(parse_struct_annotation_spec(d.attrs[0]) is Ok);
    assert(parse_struct_annotation_spec(rest.first()) is Ok) by {
        assert(rest[0] == d.attrs[1]);
    }
    let p = parse_struct_annotation_spec(d.attrs[0])->Ok_0;
    assert(resolve_struct_config_rec(rest, Some(p)) == Err::<StructConfigView, _>(
        DeriveError::DuplicateStructAttribute,
    ));
}

/// Deriving on a record that is not a struct with named fields fails with an
/// unsupported-shape diagnostic, and no implementation is emitted.
pub proof fn lemma_non_named_record_rejected(d: RecordDefinitionView)
    requires
        resolve_struct_config_spec(d.attrs) is Ok,
        !(d.shape is Named),
    ensures
        derive_spec(d) == Err::<Seq<char>, _>((None::<int>, DeriveError::UnsupportedShape)),
{
}

/// Derivation is a pure function of the record definition: two derivations of
/// identical definitions resolve identically and emit byte-identical source.
pub proof fn lemma_derivation_deterministic(a: RecordDefinitionView, b: RecordDefinitionView)
    requires
        a == b,
    ensures
        derive_spec(a) == derive_spec(b),
        prc_derive_spec(a) == prc_derive_spec(b),
{
}

} // verus!
