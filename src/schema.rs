//! The JSON-Schema node: the converter's input.
use vstd::prelude::*;

use crate::json::{FloatBits, JsonValue};

verus! {

/// A JSON-Schema node.
#[derive(Debug)]
pub enum JsonSchema {
    /// `true` accepts every value, `false` rejects every value.
    Bool(bool),
    Object(SchemaObject),
}

/// The primitive types a node may name.
#[derive(Clone, Copy, Debug, PartialEq, Eq, Structural)]
pub enum InstanceType {
    Null,
    Boolean,
    Object,
    Array,
    Number,
    String,
    Integer,
}

/// A node's `type` keyword: one type or a list of them.
#[derive(Debug)]
pub enum TypeList {
    Single(InstanceType),
    Vec(Vec<InstanceType>),
}

/// A node's `items` keyword: one schema for every item, or one per position.
#[derive(Debug)]
pub enum Items {
    Single(Box<JsonSchema>),
    Vec(Vec<JsonSchema>),
}

/// The annotations of a node.
#[derive(Debug)]
pub struct Metadata {
    pub id: Option<String>,
    pub title: Option<String>,
    pub description: Option<String>,
    pub default: Option<JsonValue>,
    pub deprecated: bool,
    pub read_only: bool,
    pub write_only: bool,
    pub examples: Vec<JsonValue>,
}

/// The composition keywords of a node.
#[derive(Debug)]
pub struct SubschemaValidation {
    pub all_of: Option<Vec<JsonSchema>>,
    pub any_of: Option<Vec<JsonSchema>>,
    pub one_of: Option<Vec<JsonSchema>>,
    pub not: Option<Box<JsonSchema>>,
    pub if_schema: Option<Box<JsonSchema>>,
    pub then_schema: Option<Box<JsonSchema>>,
    pub else_schema: Option<Box<JsonSchema>>,
}

/// The keywords that constrain numbers.
#[derive(Clone, Copy, Debug)]
pub struct NumberValidation {
    pub multiple_of: Option<FloatBits>,
    pub maximum: Option<FloatBits>,
    pub exclusive_maximum: Option<FloatBits>,
    pub minimum: Option<FloatBits>,
    pub exclusive_minimum: Option<FloatBits>,
}

/// The keywords that constrain strings.
#[derive(Debug)]
pub struct StringValidation {
    pub max_length: Option<u32>,
    pub min_length: Option<u32>,
    pub pattern: Option<String>,
}

/// The keywords that constrain arrays.
#[derive(Debug)]
pub struct ArrayValidation {
    pub items: Option<Items>,
    pub additional_items: Option<Box<JsonSchema>>,
    pub max_items: Option<u32>,
    pub min_items: Option<u32>,
    pub unique_items: Option<bool>,
    pub contains: Option<Box<JsonSchema>>,
}

/// The keywords that constrain objects.
#[derive(Debug)]
pub struct ObjectValidation {
    pub max_properties: Option<u32>,
    pub min_properties: Option<u32>,
    pub required: Vec<String>,
    /// Property names with their schemas, in order.
    pub properties: Vec<(String, JsonSchema)>,
    pub pattern_properties: Vec<(String, JsonSchema)>,
    pub additional_properties: Option<Box<JsonSchema>>,
    pub property_names: Option<Box<JsonSchema>>,
}

/// A node given by keywords.
#[derive(Debug)]
pub struct SchemaObject {
    pub metadata: Option<Box<Metadata>>,
    pub instance_type: Option<TypeList>,
    pub format: Option<String>,
    pub enum_values: Option<Vec<JsonValue>>,
    pub const_value: Option<JsonValue>,
    pub subschemas: Option<Box<SubschemaValidation>>,
    pub number: Option<NumberValidation>,
    pub string: Option<StringValidation>,
    pub array: Option<Box<ArrayValidation>>,
    pub object: Option<Box<ObjectValidation>>,
    /// A `$ref`: when present, the node stands for the schema it names.
    pub reference: Option<String>,
    pub extensions: Vec<(String, JsonValue)>,
}

} // verus!
