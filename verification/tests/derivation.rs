use prc_derive::derive::{derive_or_error, prc_derive};
use prc_derive::{
    AttrValue, DeriveError, FieldDef, RawAnnotation, RecordDefinition, RecordShape,
};

fn named_record(name: &str, attrs: Vec<RawAnnotation>, fields: Vec<FieldDef>) -> RecordDefinition {
    RecordDefinition { name: String::from(name), attrs, shape: RecordShape::Named(fields) }
}

fn plain_field(name: &str) -> FieldDef {
    FieldDef { name: String::from(name), attrs: vec![] }
}

fn annotated_field(name: &str, attrs: Vec<RawAnnotation>) -> FieldDef {
    FieldDef { name: String::from(name), attrs }
}

fn hash_attr(k: u64) -> RawAnnotation {
    RawAnnotation::KeyValue(String::from("hash"), AttrValue::IntLit(k))
}

fn name_attr(s: &str) -> RawAnnotation {
    RawAnnotation::KeyValue(String::from("name"), AttrValue::StrLit(String::from(s)))
}

fn path_attr(p: &str) -> RawAnnotation {
    RawAnnotation::KeyValue(String::from("path"), AttrValue::PathVal(String::from(p)))
}

#[test]
fn header_generated_source() {
    let def = named_record(
        "Header",
        vec![],
        vec![
            plain_field("magic"),
            annotated_field("count", vec![hash_attr(0x100)]),
            annotated_field("label", vec![name_attr("display_name")]),
        ],
    );
    let source = derive_or_error(&def).unwrap();
    let expected = "impl Prc for Header {\n\
                    \x20   fn read_param<R: ::std::io::Read + ::std::io::Seek>(reader: &mut R, offsets: ::prc::FileOffsets) -> ::prc::Result<Self> {\n\
                    \x20       let data = ::prc::StructData::from_stream(reader)?;\n\
                    \x20       Ok(Self {\n\
                    \x20           magic: data.read_child(reader, ::prc::hash40::hash40(\"magic\"), offsets)?,\n\
                    \x20           count: data.read_child(reader, ::prc::hash40::Hash40(256), offsets)?,\n\
                    \x20           label: data.read_child(reader, ::prc::hash40::hash40(\"display_name\"), offsets)?,\n\
                    \x20       })\n\
                    \x20   }\n\
                    }\n";
    assert_eq!(source, expected);
}

#[test]
fn derivation_is_deterministic() {
    let make = || {
        named_record(
            "Header",
            vec![],
            vec![
                plain_field("magic"),
                annotated_field("count", vec![hash_attr(0x100)]),
                annotated_field("label", vec![name_attr("display_name")]),
            ],
        )
    };
    let first = prc_derive(&make());
    let second = prc_derive(&make());
    assert_eq!(first.as_bytes(), second.as_bytes());
}

#[test]
fn path_override_is_referenced() {
    let def = named_record(
        "Data",
        vec![path_attr("crate::runtime")],
        vec![plain_field("value")],
    );
    let source = derive_or_error(&def).unwrap();
    assert!(source.contains("crate::runtime::FileOffsets"));
    assert!(source.contains("crate::runtime::StructData::from_stream(reader)?"));
    assert!(source.contains("crate::runtime::hash40::hash40(\"value\")"));
    assert!(!source.contains("::prc::"));
}

#[test]
fn tuple_record_is_unsupported() {
    let def = RecordDefinition {
        name: String::from("Pair"),
        attrs: vec![],
        shape: RecordShape::Tuple,
    };
    let diag = derive_or_error(&def).unwrap_err();
    assert_eq!(diag.error, DeriveError::UnsupportedShape);
    assert_eq!(diag.field_index, None);
}

#[test]
fn unit_record_is_unsupported() {
    let def = RecordDefinition {
        name: String::from("Marker"),
        attrs: vec![],
        shape: RecordShape::Unit,
    };
    let diag = derive_or_error(&def).unwrap_err();
    assert_eq!(diag.error, DeriveError::UnsupportedShape);
}

#[test]
fn non_struct_record_is_unsupported() {
    let def = RecordDefinition {
        name: String::from("Choice"),
        attrs: vec![],
        shape: RecordShape::NotARecord,
    };
    let diag = derive_or_error(&def).unwrap_err();
    assert_eq!(diag.error, DeriveError::UnsupportedShape);
}

#[test]
fn duplicate_field_annotation_fails_derivation() {
    let def = named_record(
        "Header",
        vec![],
        vec![
            plain_field("magic"),
            annotated_field("count", vec![hash_attr(1), hash_attr(2)]),
        ],
    );
    let diag = derive_or_error(&def).unwrap_err();
    assert_eq!(diag.error, DeriveError::DuplicateFieldAttribute);
    assert_eq!(diag.field_index, Some(1));
}

#[test]
fn duplicate_path_annotation_fails_derivation() {
    let def = named_record(
        "Header",
        vec![path_attr("a"), path_attr("b")],
        vec![plain_field("magic")],
    );
    let diag = derive_or_error(&def).unwrap_err();
    assert_eq!(diag.error, DeriveError::DuplicateStructAttribute);
    assert_eq!(diag.field_index, None);
}

#[test]
fn failed_derivation_emits_a_compile_error() {
    let def = RecordDefinition {
        name: String::from("Pair"),
        attrs: vec![],
        shape: RecordShape::Tuple,
    };
    let source = prc_derive(&def);
    assert_eq!(
        source,
        "compile_error!(\"Derive macro only implemented for named structs\");\n"
    );
}

#[test]
fn name_override_is_escaped_in_source() {
    let def = named_record(
        "Odd",
        vec![],
        vec![annotated_field("field", vec![name_attr("say \"hi\"\\now")])],
    );
    let source = derive_or_error(&def).unwrap();
    assert!(source.contains("hash40(\"say \\\"hi\\\"\\\\now\")"));
}

#[test]
fn literal_keys_render_in_decimal() {
    let def = named_record(
        "Keys",
        vec![],
        vec![
            annotated_field("zero", vec![hash_attr(0)]),
            annotated_field("biggest", vec![hash_attr(u64::MAX)]),
        ],
    );
    let source = derive_or_error(&def).unwrap();
    assert!(source.contains("zero: data.read_child(reader, ::prc::hash40::Hash40(0), offsets)?"));
    assert!(source.contains(
        "biggest: data.read_child(reader, ::prc::hash40::Hash40(18446744073709551615), offsets)?"
    ));
}

#[test]
fn empty_record_derives_an_empty_constructor() {
    let def = named_record("Empty", vec![], vec![]);
    let source = derive_or_error(&def).unwrap();
    assert!(source.contains("Ok(Self {\n        })"));
    assert!(source.starts_with("impl Prc for Empty {\n"));
}

#[test]
fn struct_attribute_errors_win_over_shape() {
    let def = RecordDefinition {
        name: String::from("Pair"),
        attrs: vec![RawAnnotation::KeyValue(
            String::from("namespace"),
            AttrValue::PathVal(String::from("x")),
        )],
        shape: RecordShape::Tuple,
    };
    let diag = derive_or_error(&def).unwrap_err();
    assert_eq!(diag.error, DeriveError::InvalidStructAttributeName);
}
