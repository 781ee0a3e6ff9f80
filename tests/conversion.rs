use swaggapi::convert::{convert_schema, convert_u32, InstanceTypes};
use swaggapi::json::{FloatBits, JsonNumber, JsonValue};
use swaggapi::openapi::{AdditionalProperties, SchemaKind, SchemaRef, TypeName};
use swaggapi::schema::{
    ArrayValidation, InstanceType, Items, JsonSchema, Metadata, NumberValidation, ObjectValidation,
    SchemaObject, StringValidation, SubschemaValidation, TypeList,
};

fn blank() -> SchemaObject {
    SchemaObject {
        metadata: None,
        instance_type: None,
        format: None,
        enum_values: None,
        const_value: None,
        subschemas: None,
        number: None,
        string: None,
        array: None,
        object: None,
        reference: None,
        extensions: Vec::new(),
    }
}

fn typed(types: Vec<InstanceType>) -> SchemaObject {
    let mut o = blank();
    o.instance_type = Some(TypeList::Vec(types));
    o
}

fn single(t: InstanceType) -> JsonSchema {
    let mut o = blank();
    o.instance_type = Some(TypeList::Single(t));
    JsonSchema::Object(o)
}

fn item(r: SchemaRef) -> swaggapi::openapi::Schema {
    match r {
        SchemaRef::Item(s) => *s,
        SchemaRef::Reference(name) => panic!("unexpected reference {name}"),
    }
}

fn any_of(kind: SchemaKind) -> swaggapi::openapi::AnySchema {
    match kind {
        SchemaKind::Any(a) => a,
        other => panic!("unexpected kind {other:?}"),
    }
}

fn is_empty_any(a: &swaggapi::openapi::AnySchema) -> bool {
    a.typ.is_none()
        && a.properties.is_empty()
        && a.items.is_none()
        && a.enumeration.is_empty()
        && a.one_of.is_empty()
        && a.all_of.is_empty()
        && a.any_of.is_empty()
        && a.not.is_none()
}

#[test]
fn true_schema_admits_everything() {
    let s = item(convert_schema(&JsonSchema::Bool(true)));
    assert!(!s.schema_data.nullable);
    assert!(is_empty_any(&any_of(s.schema_kind)));
}

#[test]
fn false_schema_admits_nothing() {
    let s = item(convert_schema(&JsonSchema::Bool(false)));
    match s.schema_kind {
        SchemaKind::Not(inner) => {
            let inner = item(*inner);
            assert!(is_empty_any(&any_of(inner.schema_kind)));
        },
        other => panic!("expected not, got {other:?}"),
    }
}

#[test]
fn reference_passes_through() {
    let mut o = blank();
    o.reference = Some("#/components/schemas/Thing".to_string());
    o.instance_type = Some(TypeList::Single(InstanceType::String));
    match convert_schema(&JsonSchema::Object(o)) {
        SchemaRef::Reference(r) => assert_eq!(r, "#/components/schemas/Thing"),
        other => panic!("expected a reference, got {other:?}"),
    }
}

#[test]
fn string_and_null_collapse_to_nullable_string() {
    let o = typed(vec![InstanceType::String, InstanceType::Null]);
    let s = item(convert_schema(&JsonSchema::Object(o)));
    assert!(s.schema_data.nullable);
    assert_eq!(any_of(s.schema_kind).typ, Some(TypeName::String));
}

#[test]
fn string_number_null_give_one_of_without_nullable() {
    let o = typed(vec![InstanceType::String, InstanceType::Number, InstanceType::Null]);
    let s = item(convert_schema(&JsonSchema::Object(o)));
    assert!(!s.schema_data.nullable);
    match s.schema_kind {
        SchemaKind::OneOf(members) => {
            assert_eq!(members.len(), 2);
            let types: Vec<Option<TypeName>> = members
                .into_iter()
                .map(|m| {
                    let m = item(m);
                    assert!(!m.schema_data.nullable);
                    any_of(m.schema_kind).typ
                })
                .collect();
            assert_eq!(types, vec![Some(TypeName::Number), Some(TypeName::String)]);
        },
        other => panic!("expected oneOf, got {other:?}"),
    }
}

#[test]
fn null_alone_is_nullable_any() {
    let o = typed(vec![InstanceType::Null]);
    let s = item(convert_schema(&JsonSchema::Object(o)));
    assert!(s.schema_data.nullable);
    assert!(is_empty_any(&any_of(s.schema_kind)));
}

#[test]
fn tuple_items_fan_out_into_arrays() {
    let mut o = typed(vec![InstanceType::Array]);
    o.array = Some(Box::new(ArrayValidation {
        items: Some(Items::Vec(vec![
            single(InstanceType::String),
            single(InstanceType::Integer),
            single(InstanceType::Boolean),
        ])),
        additional_items: None,
        max_items: Some(3),
        min_items: Some(1),
        unique_items: Some(true),
        contains: None,
    }));
    let s = item(convert_schema(&JsonSchema::Object(o)));
    match s.schema_kind {
        SchemaKind::OneOf(members) => {
            assert_eq!(members.len(), 3);
            let expected = [TypeName::String, TypeName::Integer, TypeName::Boolean];
            for (m, t) in members.into_iter().zip(expected) {
                let a = any_of(item(m).schema_kind);
                assert_eq!(a.typ, Some(TypeName::Array));
                assert_eq!(a.min_items, Some(1));
                assert_eq!(a.max_items, Some(3));
                assert_eq!(a.unique_items, Some(true));
                let items = any_of(item(*a.items.unwrap()).schema_kind);
                assert_eq!(items.typ, Some(t));
            }
        },
        other => panic!("expected oneOf, got {other:?}"),
    }
}

#[test]
fn array_without_items_admits_any_item() {
    let o = typed(vec![InstanceType::Array]);
    let a = any_of(item(convert_schema(&JsonSchema::Object(o))).schema_kind);
    assert_eq!(a.typ, Some(TypeName::Array));
    assert!(is_empty_any(&any_of(item(*a.items.unwrap()).schema_kind)));
}

#[test]
fn string_enum_keeps_null_and_strings() {
    let mut o = typed(vec![InstanceType::String]);
    o.enum_values = Some(vec![
        JsonValue::Null,
        JsonValue::Number(JsonNumber::PosInt(1)),
        JsonValue::String("a".to_string()),
        JsonValue::Bool(true),
    ]);
    let a = any_of(item(convert_schema(&JsonSchema::Object(o))).schema_kind);
    assert_eq!(a.enumeration.len(), 2);
    assert!(matches!(a.enumeration[0], JsonValue::Null));
    assert!(matches!(&a.enumeration[1], JsonValue::String(s) if s == "a"));
}

#[test]
fn integer_enum_keeps_null_and_integers() {
    let mut o = typed(vec![InstanceType::Integer]);
    o.enum_values = Some(vec![
        JsonValue::Number(JsonNumber::Float(FloatBits { bits: 1.5f64.to_bits() })),
        JsonValue::Number(JsonNumber::NegInt(-4)),
        JsonValue::Null,
        JsonValue::String("x".to_string()),
    ]);
    let a = any_of(item(convert_schema(&JsonSchema::Object(o))).schema_kind);
    assert_eq!(a.typ, Some(TypeName::Integer));
    assert_eq!(a.enumeration.len(), 2);
    assert!(matches!(a.enumeration[0], JsonValue::Number(JsonNumber::NegInt(-4))));
    assert!(matches!(a.enumeration[1], JsonValue::Null));
}

#[test]
fn boolean_enum_keeps_null_and_booleans() {
    let mut o = typed(vec![InstanceType::Boolean]);
    o.enum_values = Some(vec![JsonValue::Bool(false), JsonValue::Number(JsonNumber::PosInt(0)), JsonValue::Null]);
    let a = any_of(item(convert_schema(&JsonSchema::Object(o))).schema_kind);
    assert_eq!(a.typ, Some(TypeName::Boolean));
    assert_eq!(a.enumeration.len(), 2);
    assert!(matches!(a.enumeration[0], JsonValue::Bool(false)));
    assert!(matches!(a.enumeration[1], JsonValue::Null));
}

#[test]
fn exclusive_bound_wins_over_plain_bound() {
    let mut o = typed(vec![InstanceType::Number]);
    let bits = |x: f64| FloatBits { bits: x.to_bits() };
    o.number = Some(NumberValidation {
        multiple_of: Some(bits(0.5)),
        maximum: Some(bits(10.0)),
        exclusive_maximum: Some(bits(9.0)),
        minimum: Some(bits(1.0)),
        exclusive_minimum: None,
    });
    o.format = Some("double".to_string());
    let a = any_of(item(convert_schema(&JsonSchema::Object(o))).schema_kind);
    assert_eq!(a.typ, Some(TypeName::Number));
    assert_eq!(a.maximum, Some(bits(9.0)));
    assert_eq!(a.exclusive_maximum, Some(true));
    assert_eq!(a.minimum, Some(bits(1.0)));
    assert_eq!(a.exclusive_minimum, Some(false));
    assert_eq!(a.multiple_of, Some(bits(0.5)));
    assert_eq!(a.format.as_deref(), Some("double"));
}

#[test]
fn no_bound_leaves_exclusive_flags_unset() {
    let mut o = typed(vec![InstanceType::Integer]);
    o.number = Some(NumberValidation {
        multiple_of: None,
        maximum: None,
        exclusive_maximum: None,
        minimum: None,
        exclusive_minimum: None,
    });
    let a = any_of(item(convert_schema(&JsonSchema::Object(o))).schema_kind);
    assert_eq!(a.exclusive_maximum, None);
    assert_eq!(a.exclusive_minimum, None);
}

#[test]
fn string_keywords_are_copied() {
    let mut o = typed(vec![InstanceType::String]);
    o.string = Some(StringValidation { max_length: Some(8), min_length: Some(2), pattern: Some("^a".to_string()) });
    let a = any_of(item(convert_schema(&JsonSchema::Object(o))).schema_kind);
    assert_eq!(a.min_length, Some(2));
    assert_eq!(a.max_length, Some(8));
    assert_eq!(a.pattern.as_deref(), Some("^a"));
}

#[test]
fn object_properties_are_converted_in_order() {
    let mut o = typed(vec![InstanceType::Object]);
    o.object = Some(Box::new(ObjectValidation {
        max_properties: Some(5),
        min_properties: None,
        required: vec!["foo".to_string()],
        properties: vec![
            ("foo".to_string(), single(InstanceType::Integer)),
            ("bar".to_string(), single(InstanceType::String)),
        ],
        pattern_properties: Vec::new(),
        additional_properties: Some(Box::new(JsonSchema::Bool(false))),
        property_names: None,
    }));
    let a = any_of(item(convert_schema(&JsonSchema::Object(o))).schema_kind);
    assert_eq!(a.typ, Some(TypeName::Object));
    assert_eq!(a.required, vec!["foo".to_string()]);
    assert_eq!(a.max_properties, Some(5));
    assert!(matches!(a.additional_properties, Some(AdditionalProperties::Any(false))));
    let names: Vec<&str> = a.properties.iter().map(|(n, _)| n.as_str()).collect();
    assert_eq!(names, vec!["foo", "bar"]);
}

#[test]
fn metadata_keeps_first_example_and_drops_id() {
    let mut o = blank();
    o.metadata = Some(Box::new(Metadata {
        id: Some("urn:x".to_string()),
        title: Some("Title".to_string()),
        description: Some("About".to_string()),
        default: Some(JsonValue::Bool(true)),
        deprecated: true,
        read_only: true,
        write_only: false,
        examples: vec![JsonValue::String("one".to_string()), JsonValue::String("two".to_string())],
    }));
    o.extensions = vec![("x-kind".to_string(), JsonValue::Null)];
    let s = item(convert_schema(&JsonSchema::Object(o)));
    let d = s.schema_data;
    assert_eq!(d.title.as_deref(), Some("Title"));
    assert_eq!(d.description.as_deref(), Some("About"));
    assert!(d.deprecated && d.read_only && !d.write_only);
    assert!(matches!(&d.example, Some(JsonValue::String(e)) if e == "one"));
    assert!(matches!(d.default, Some(JsonValue::Bool(true))));
    assert_eq!(d.extensions.len(), 1);
}

#[test]
fn composition_is_converted_with_the_type() {
    let mut o = typed(vec![InstanceType::String]);
    o.subschemas = Some(Box::new(SubschemaValidation {
        all_of: Some(vec![JsonSchema::Bool(true)]),
        any_of: None,
        one_of: Some(vec![single(InstanceType::String), single(InstanceType::Null)]),
        not: Some(Box::new(JsonSchema::Bool(false))),
        if_schema: Some(Box::new(JsonSchema::Bool(true))),
        then_schema: None,
        else_schema: None,
    }));
    let a = any_of(item(convert_schema(&JsonSchema::Object(o))).schema_kind);
    assert_eq!(a.typ, Some(TypeName::String));
    assert_eq!(a.all_of.len(), 1);
    assert_eq!(a.one_of.len(), 2);
    assert!(a.any_of.is_empty());
    assert!(a.not.is_some());
}

#[test]
fn composition_alone_gives_any_schema_with_it() {
    let mut o = blank();
    o.subschemas = Some(Box::new(SubschemaValidation {
        all_of: None,
        any_of: Some(vec![single(InstanceType::Integer), single(InstanceType::Boolean)]),
        one_of: None,
        not: None,
        if_schema: None,
        then_schema: None,
        else_schema: None,
    }));
    let a = any_of(item(convert_schema(&JsonSchema::Object(o))).schema_kind);
    assert_eq!(a.typ, None);
    assert_eq!(a.any_of.len(), 2);
}

#[test]
fn counts_fit_the_size_type() {
    assert_eq!(convert_u32(0), 0);
    assert_eq!(convert_u32(7), 7);
    assert_eq!(convert_u32(u32::MAX), u32::MAX as usize);
}

#[test]
fn instance_types_are_parsed() {
    let t = InstanceTypes::parse(&TypeList::Vec(vec![InstanceType::Null, InstanceType::Integer, InstanceType::Null]));
    assert!(t.many && t.is_null && t.is_integer);
    assert!(!t.is_string && !t.is_boolean && !t.is_object && !t.is_array && !t.is_number);
    let t = InstanceTypes::parse(&TypeList::Single(InstanceType::Object));
    assert!(!t.many && t.is_object && !t.is_null);
}

#[test]
fn tuple_fan_out_beside_another_type() {
    let mut o = typed(vec![InstanceType::String, InstanceType::Array]);
    o.array = Some(Box::new(ArrayValidation {
        items: Some(Items::Vec(vec![JsonSchema::Bool(true), JsonSchema::Bool(false), single(InstanceType::Null)])),
        additional_items: None,
        max_items: None,
        min_items: Some(2),
        unique_items: None,
        contains: None,
    }));
    let s = item(convert_schema(&JsonSchema::Object(o)));
    match s.schema_kind {
        SchemaKind::OneOf(members) => {
            let types: Vec<Option<TypeName>> = members.into_iter().map(|m| any_of(item(m).schema_kind).typ).collect();
            assert_eq!(
                types,
                vec![Some(TypeName::Array), Some(TypeName::Array), Some(TypeName::Array), Some(TypeName::String)]
            );
        },
        other => panic!("expected oneOf, got {other:?}"),
    }
}
