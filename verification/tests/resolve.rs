use prc_derive::attrs::{resolve_bindings, resolve_field_key, resolve_struct_config};
use prc_derive::{AttrValue, DeriveError, FieldDef, RawAnnotation, ResolvedKey};

fn plain_field(name: &str) -> FieldDef {
    FieldDef { name: String::from(name), attrs: vec![] }
}

fn annotated_field(name: &str, attrs: Vec<RawAnnotation>) -> FieldDef {
    FieldDef { name: String::from(name), attrs }
}

fn hash_attr(k: u64) -> RawAnnotation {
    RawAnnotation::KeyValue(String::from("hash"), AttrValue::IntLit(k))
}

fn name_attr(s: &str) -> RawAnnotation {
    RawAnnotation::KeyValue(String::from("name"), AttrValue::StrLit(String::from(s)))
}

fn path_attr(p: &str) -> RawAnnotation {
    RawAnnotation::KeyValue(String::from("path"), AttrValue::PathVal(String::from(p)))
}

#[test]
fn default_keys_hash_field_identifiers() {
    let fields = vec![plain_field("magic"), plain_field("count"), plain_field("label")];
    let bindings = resolve_bindings(&fields).unwrap();
    assert_eq!(bindings.len(), 3);
    let expected = ["magic", "count", "label"];
    for (b, want) in bindings.iter().zip(expected.iter()) {
        assert_eq!(b.name, *want);
        match &b.key {
            ResolvedKey::HashOf(s) => assert_eq!(s, want),
            other => panic!("expected a hashed identifier key, got {:?}", other),
        }
    }
}

#[test]
fn hash_override_is_verbatim() {
    let f = annotated_field("count", vec![hash_attr(0x100)]);
    match resolve_field_key(&f).unwrap() {
        ResolvedKey::Literal(k) => assert_eq!(k, 0x100),
        other => panic!("expected the literal key, got {:?}", other),
    }
}

#[test]
fn name_override_hashes_the_string() {
    let f = annotated_field("label", vec![name_attr("display_name")]);
    match resolve_field_key(&f).unwrap() {
        ResolvedKey::HashOf(s) => assert_eq!(s, "display_name"),
        other => panic!("expected a hashed-name key, got {:?}", other),
    }
}

#[test]
fn duplicate_field_annotation_is_rejected() {
    let f = annotated_field("count", vec![hash_attr(1), name_attr("other")]);
    assert_eq!(resolve_field_key(&f), Err(DeriveError::DuplicateFieldAttribute));
}

#[test]
fn unknown_field_key_is_rejected() {
    let f = annotated_field(
        "count",
        vec![RawAnnotation::KeyValue(String::from("from"), AttrValue::IntLit(1))],
    );
    assert_eq!(resolve_field_key(&f), Err(DeriveError::InvalidFieldAttributeName));
}

#[test]
fn malformed_field_annotation_is_rejected() {
    let f = annotated_field("count", vec![RawAnnotation::Malformed]);
    assert_eq!(resolve_field_key(&f), Err(DeriveError::SyntaxError));
    let g = annotated_field(
        "count",
        vec![RawAnnotation::KeyMalformed(String::from("hash"))],
    );
    assert_eq!(resolve_field_key(&g), Err(DeriveError::SyntaxError));
}

#[test]
fn wrong_literal_kind_is_rejected() {
    let f = annotated_field(
        "count",
        vec![RawAnnotation::KeyValue(String::from("name"), AttrValue::IntLit(5))],
    );
    assert_eq!(resolve_field_key(&f), Err(DeriveError::SyntaxError));
    let g = annotated_field(
        "count",
        vec![RawAnnotation::KeyValue(
            String::from("hash"),
            AttrValue::StrLit(String::from("x")),
        )],
    );
    assert_eq!(resolve_field_key(&g), Err(DeriveError::SyntaxError));
}

#[test]
fn first_bad_group_wins_over_duplicate_count() {
    let f = annotated_field(
        "count",
        vec![hash_attr(1), RawAnnotation::Malformed, name_attr("x")],
    );
    assert_eq!(resolve_field_key(&f), Err(DeriveError::SyntaxError));
}

#[test]
fn struct_config_defaults_to_no_override() {
    let config = resolve_struct_config(&vec![]).unwrap();
    assert_eq!(config.path_override, None);
}

#[test]
fn struct_config_takes_path_override() {
    let config = resolve_struct_config(&vec![path_attr("crate::runtime")]).unwrap();
    assert_eq!(config.path_override.as_deref(), Some("crate::runtime"));
}

#[test]
fn duplicate_path_annotation_is_rejected() {
    let attrs = vec![path_attr("a"), path_attr("b")];
    assert_eq!(resolve_struct_config(&attrs), Err(DeriveError::DuplicateStructAttribute));
}

#[test]
fn unknown_struct_key_is_rejected() {
    let attrs = vec![RawAnnotation::KeyValue(
        String::from("namespace"),
        AttrValue::PathVal(String::from("x")),
    )];
    assert_eq!(resolve_struct_config(&attrs), Err(DeriveError::InvalidStructAttributeName));
}

#[test]
fn path_with_wrong_value_kind_is_rejected() {
    let attrs = vec![RawAnnotation::KeyValue(
        String::from("path"),
        AttrValue::StrLit(String::from("::other")),
    )];
    assert_eq!(resolve_struct_config(&attrs), Err(DeriveError::SyntaxError));
}

#[test]
fn binding_error_reports_the_failing_field() {
    let fields = vec![
        plain_field("ok"),
        annotated_field("bad", vec![hash_attr(1), hash_attr(2)]),
        plain_field("later"),
    ];
    match resolve_bindings(&fields) {
        Err((idx, e)) => {
            assert_eq!(idx, 1);
            assert_eq!(e, DeriveError::DuplicateFieldAttribute);
        }
        Ok(_) => panic!("expected the duplicate annotation to be rejected"),
    }
}
