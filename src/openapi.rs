//! The OpenAPI 3.0 schema node: the converter's output.
use vstd::prelude::*;

use crate::json::{FloatBits, JsonValue};

verus! {

/// Either a `$ref` or an inline schema.
#[derive(Debug)]
pub enum SchemaRef {
    Reference(String),
    Item(Box<Schema>),
}

/// An inline schema: annotations and the kind of values it describes.
#[derive(Debug)]
pub struct Schema {
    pub schema_data: SchemaData,
    pub schema_kind: SchemaKind,
}

/// The annotations of a schema.
#[derive(Debug)]
pub struct SchemaData {
    pub nullable: bool,
    pub read_only: bool,
    pub write_only: bool,
    pub deprecated: bool,
    pub example: Option<JsonValue>,
    pub title: Option<String>,
    pub description: Option<String>,
    pub default: Option<JsonValue>,
    pub extensions: Vec<(String, JsonValue)>,
}

/// The value of a schema's `type` keyword.
#[derive(Clone, Copy, Debug, PartialEq, Eq, Structural)]
pub enum TypeName {
    Boolean,
    Object,
    Array,
    Number,
    String,
    Integer,
}

impl TypeName {
    /// The keyword's text.
    pub fn as_str(&self) -> (r: &'static str)
        ensures
            r@ == type_name_text(*self),
    {
        match self {
            TypeName::Boolean => "boolean",
            TypeName::Object => "object",
            TypeName::Array => "array",
            TypeName::Number => "number",
            TypeName::String => "string",
            TypeName::Integer => "integer",
        }
    }
}

/// The text of a `type` keyword.
pub open spec fn type_name_text(t: TypeName) -> Seq<char> {
    match t {
        TypeName::Boolean => "boolean"@,
        TypeName::Object => "object"@,
        TypeName::Array => "array"@,
        TypeName::Number => "number"@,
        TypeName::String => "string"@,
        TypeName::Integer => "integer"@,
    }
}

/// What a schema says about its values.
#[derive(Debug)]
pub enum SchemaKind {
    /// Keywords without a fixed shape; with no keyword set it admits every value.
    Any(AnySchema),
    /// Exactly one of the schemas holds.
    OneOf(Vec<SchemaRef>),
    /// The schema does not hold.
    Not(Box<SchemaRef>),
}

/// `additionalProperties`: a flag or a schema.
#[derive(Debug)]
pub enum AdditionalProperties {
    Any(bool),
    Schema(Box<SchemaRef>),
}

/// Every keyword of an OpenAPI schema, each optional.
#[derive(Debug)]
pub struct AnySchema {
    pub typ: Option<TypeName>,
    pub pattern: Option<String>,
    pub multiple_of: Option<FloatBits>,
    pub exclusive_minimum: Option<bool>,
    pub exclusive_maximum: Option<bool>,
    pub minimum: Option<FloatBits>,
    pub maximum: Option<FloatBits>,
    pub properties: Vec<(String, SchemaRef)>,
    pub required: Vec<String>,
    pub additional_properties: Option<AdditionalProperties>,
    pub min_properties: Option<usize>,
    pub max_properties: Option<usize>,
    pub items: Option<Box<SchemaRef>>,
    pub min_items: Option<usize>,
    pub max_items: Option<usize>,
    pub unique_items: Option<bool>,
    pub enumeration: Vec<JsonValue>,
    pub format: Option<String>,
    pub min_length: Option<usize>,
    pub max_length: Option<usize>,
    pub one_of: Vec<SchemaRef>,
    pub all_of: Vec<SchemaRef>,
    pub any_of: Vec<SchemaRef>,
    pub not: Option<Box<SchemaRef>>,
}

/// An object schema: what a parameter list is read from.
#[derive(Debug)]
pub struct ObjectType {
    pub properties: Vec<(String, SchemaRef)>,
    pub required: Vec<String>,
    pub additional_properties: Option<AdditionalProperties>,
    pub min_properties: Option<usize>,
    pub max_properties: Option<usize>,
}

/// Whether a schema sets no keyword.
pub open spec fn any_is_empty(a: AnySchema) -> bool {
    &&& a.typ is None
    &&& a.pattern is None
    &&& a.multiple_of is None
    &&& a.exclusive_minimum is None
    &&& a.exclusive_maximum is None
    &&& a.minimum is None
    &&& a.maximum is None
    &&& a.properties@.len() == 0
    &&& a.required@.len() == 0
    &&& a.additional_properties is None
    &&& a.min_properties is None
    &&& a.max_properties is None
    &&& a.items is None
    &&& a.min_items is None
    &&& a.max_items is None
    &&& a.unique_items is None
    &&& a.enumeration@.len() == 0
    &&& a.format is None
    &&& a.min_length is None
    &&& a.max_length is None
    &&& a.one_of@.len() == 0
    &&& a.all_of@.len() == 0
    &&& a.any_of@.len() == 0
    &&& a.not is None
}

} // verus!
