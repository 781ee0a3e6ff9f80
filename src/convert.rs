//! Conversion of a JSON-Schema node into an OpenAPI 3.0 schema node.
//!
//! The conversion never fails: what the target format cannot express
//! (`if`/`then`/`else`, `patternProperties`, `propertyNames`, `contains`,
//! `additionalItems`, `const`, all but the first example) is dropped.
use vstd::prelude::*;

use crate::json::{copy_members, copy_opt_string, copy_strings, copy_opt_value, FloatBits, JsonValue};
use crate::openapi::{
    any_is_empty, AdditionalProperties, AnySchema, Schema, SchemaData, SchemaKind, SchemaRef, TypeName,
};
use crate::schema::{InstanceType, Items, JsonSchema, NumberValidation, SchemaObject, TypeList};

verus! {

// ---------------------------------------------------------------------------
// What a converted schema is
// ---------------------------------------------------------------------------

/// Annotations that say nothing.
pub open spec fn data_is_default(d: SchemaData) -> bool {
    &&& !d.nullable
    &&& !d.read_only
    &&& !d.write_only
    &&& !d.deprecated
    &&& d.example is None
    &&& d.title is None
    &&& d.description is None
    &&& d.default is None
    &&& d.extensions@.len() == 0
}

/// The schema that admits every value: no annotation, no keyword.
pub open spec fn is_any_item(r: SchemaRef) -> bool {
    &&& r is Item
    &&& data_is_default(r->Item_0.schema_data)
    &&& r->Item_0.schema_kind is Any
    &&& any_is_empty(r->Item_0.schema_kind->Any_0)
}

/// The schema that admits no value: `not` of the schema that admits every value.
pub open spec fn is_nothing_item(r: SchemaRef) -> bool {
    &&& r is Item
    &&& data_is_default(r->Item_0.schema_data)
    &&& r->Item_0.schema_kind is Not
    &&& is_any_item(*r->Item_0.schema_kind->Not_0)
}

/// Whether a node's `type` keyword names `t`.
pub open spec fn names_type(ts: TypeList, t: InstanceType) -> bool {
    match ts {
        TypeList::Single(x) => x == t,
        TypeList::Vec(v) => v@.contains(t),
    }
}

/// Whether a node names `t` as its type or among its types.
pub open spec fn has_type(o: SchemaObject, t: InstanceType) -> bool {
    o.instance_type is Some && names_type(o.instance_type->0, t)
}

pub open spec fn count(b: bool) -> int {
    if b {
        1
    } else {
        0
    }
}

/// How many array schemas an array type fans out into: one per tuple position,
/// else one.
pub open spec fn array_fan_out(o: SchemaObject) -> int {
    if !has_type(o, InstanceType::Array) {
        0
    } else {
        match o.array {
            Some(av) => match av.items {
                Some(Items::Vec(v)) => v@.len() as int,
                _ => 1,
            },
            None => 1,
        }
    }
}

/// Where each type's schema stands in the list of a node's type schemas:
/// boolean, object, the arrays, number, string, integer.
pub open spec fn object_slot(o: SchemaObject) -> int {
    count(has_type(o, InstanceType::Boolean))
}

pub open spec fn array_slot(o: SchemaObject) -> int {
    object_slot(o) + count(has_type(o, InstanceType::Object))
}

pub open spec fn number_slot(o: SchemaObject) -> int {
    array_slot(o) + array_fan_out(o)
}

pub open spec fn string_slot(o: SchemaObject) -> int {
    number_slot(o) + count(has_type(o, InstanceType::Number))
}

pub open spec fn integer_slot(o: SchemaObject) -> int {
    string_slot(o) + count(has_type(o, InstanceType::String))
}

/// How many type schemas a node yields.
pub open spec fn type_count(o: SchemaObject) -> int {
    integer_slot(o) + count(has_type(o, InstanceType::Integer))
}

/// The kinds of `enum` values that a type keeps.
#[derive(Clone, Copy, Debug, PartialEq, Eq, Structural)]
pub enum EnumKind {
    Boolean,
    Number,
    Integer,
    String,
}

/// Whether a type of kind `k` keeps the `enum` value `v`: `null` and the values
/// of its own type.
pub open spec fn keeps(k: EnumKind, v: JsonValue) -> bool {
    match k {
        EnumKind::Boolean => v is Null || v is Bool,
        EnumKind::Number => v is Null || v is Number,
        EnumKind::Integer => v is Null || (v is Number && v->Number_0.spec_is_integer()),
        EnumKind::String => v is Null || v is String,
    }
}

/// The values of `vals` that a type of kind `k` keeps, in order.
pub open spec fn kept(vals: Seq<JsonValue>, k: EnumKind) -> Seq<JsonValue>
    decreases vals.len(),
{
    if vals.len() == 0 {
        Seq::empty()
    } else {
        let rest = kept(vals.drop_last(), k);
        if keeps(k, vals.last()) {
            rest.push(vals.last())
        } else {
            rest
        }
    }
}

/// The node's `enum` values (none when the keyword is absent).
pub open spec fn enum_of(o: SchemaObject) -> Seq<JsonValue> {
    match o.enum_values {
        Some(v) => v@,
        None => Seq::empty(),
    }
}

/// A 32-bit count in the target's size type: clamped to its largest value
/// where it would not fit.
pub open spec fn count_size(x: u32) -> int {
    if x <= usize::MAX {
        x as int
    } else {
        usize::MAX as int
    }
}

pub open spec fn count_ok(src: Option<u32>, dst: Option<usize>) -> bool {
    match src {
        None => dst is None,
        Some(x) => dst is Some && dst->0 as int == count_size(x),
    }
}

/// No keyword of the number types is set.
pub open spec fn no_number_keywords(a: AnySchema) -> bool {
    &&& a.multiple_of is None
    &&& a.exclusive_minimum is None
    &&& a.exclusive_maximum is None
    &&& a.minimum is None
    &&& a.maximum is None
}

/// No keyword of the string type is set (`format` aside).
pub open spec fn no_string_keywords(a: AnySchema) -> bool {
    &&& a.pattern is None
    &&& a.min_length is None
    &&& a.max_length is None
}

pub open spec fn no_object_keywords(a: AnySchema) -> bool {
    &&& a.properties@.len() == 0
    &&& a.required@.len() == 0
    &&& a.additional_properties is None
    &&& a.min_properties is None
    &&& a.max_properties is None
}

pub open spec fn no_array_keywords(a: AnySchema) -> bool {
    &&& a.items is None
    &&& a.min_items is None
    &&& a.max_items is None
    &&& a.unique_items is None
}

/// The effective bound of one side of a number range: the exclusive bound
/// wins over the plain one.
pub open spec fn bound(plain: Option<FloatBits>, exclusive: Option<FloatBits>) -> Option<FloatBits> {
    if exclusive is Some {
        exclusive
    } else {
        plain
    }
}

/// The exclusive flag of a side: set exactly when the side has a bound.
pub open spec fn bound_flag(plain: Option<FloatBits>, exclusive: Option<FloatBits>) -> Option<bool> {
    if bound(plain, exclusive) is Some {
        Some(exclusive is Some)
    } else {
        None
    }
}

/// The number keywords of a type schema, from the node's number validation.
pub open spec fn number_keywords_ok(nv: Option<NumberValidation>, a: AnySchema) -> bool {
    match nv {
        None => no_number_keywords(a),
        Some(n) => {
            &&& a.multiple_of == n.multiple_of
            &&& a.maximum == bound(n.maximum, n.exclusive_maximum)
            &&& a.exclusive_maximum == bound_flag(n.maximum, n.exclusive_maximum)
            &&& a.minimum == bound(n.minimum, n.exclusive_minimum)
            &&& a.exclusive_minimum == bound_flag(n.minimum, n.exclusive_minimum)
        },
    }
}

/// The boolean type schema of a node (its composition keywords aside).
pub open spec fn boolean_schema_ok(o: SchemaObject, a: AnySchema) -> bool {
    &&& a.typ == Some(TypeName::Boolean)
    &&& a.enumeration@ == kept(enum_of(o), EnumKind::Boolean)
    &&& a.format is None
    &&& no_number_keywords(a)
    &&& no_string_keywords(a)
    &&& no_object_keywords(a)
    &&& no_array_keywords(a)
}

/// The number or integer type schema of a node (its composition keywords aside).
pub open spec fn numeric_schema_ok(o: SchemaObject, a: AnySchema, integer: bool) -> bool {
    &&& a.typ == Some(if integer { TypeName::Integer } else { TypeName::Number })
    &&& a.enumeration@ == kept(
        enum_of(o),
        if integer {
            EnumKind::Integer
        } else {
            EnumKind::Number
        },
    )
    &&& a.format == o.format
    &&& number_keywords_ok(o.number, a)
    &&& no_string_keywords(a)
    &&& no_object_keywords(a)
    &&& no_array_keywords(a)
}

/// The string type schema of a node (its composition keywords aside).
pub open spec fn string_schema_ok(o: SchemaObject, a: AnySchema) -> bool {
    &&& a.typ == Some(TypeName::String)
    &&& a.enumeration@ == kept(enum_of(o), EnumKind::String)
    &&& a.format == o.format
    &&& match o.string {
        None => no_string_keywords(a),
        Some(sv) => {
            &&& a.pattern == sv.pattern
            &&& count_ok(sv.min_length, a.min_length)
            &&& count_ok(sv.max_length, a.max_length)
        },
    }
    &&& no_number_keywords(a)
    &&& no_object_keywords(a)
    &&& no_array_keywords(a)
}

/// The keywords that every array schema of a node shares.
pub open spec fn array_common_ok(o: SchemaObject, a: AnySchema) -> bool {
    &&& a.typ == Some(TypeName::Array)
    &&& a.enumeration@.len() == 0
    &&& a.format is None
    &&& a.items is Some
    &&& match o.array {
        None => a.min_items is None && a.max_items is None && a.unique_items is None,
        Some(av) => {
            &&& count_ok(av.min_items, a.min_items)
            &&& count_ok(av.max_items, a.max_items)
            &&& a.unique_items == av.unique_items
        },
    }
    &&& no_number_keywords(a)
    &&& no_string_keywords(a)
    &&& no_object_keywords(a)
}

/// The object type schema of a node, its properties aside.
pub open spec fn object_common_ok(o: SchemaObject, a: AnySchema) -> bool {
    &&& a.typ == Some(TypeName::Object)
    &&& a.enumeration@.len() == 0
    &&& a.format is None
    &&& match o.object {
        None => no_object_keywords(a),
        Some(ov) => {
            &&& a.required@ == ov.required@
            &&& count_ok(ov.min_properties, a.min_properties)
            &&& count_ok(ov.max_properties, a.max_properties)
        },
    }
    &&& no_number_keywords(a)
    &&& no_string_keywords(a)
    &&& no_array_keywords(a)
}

/// The annotations of a converted node: copied from its metadata (`id`
/// dropped, only the first example kept), with `nullable` as given.
pub open spec fn data_ok(o: SchemaObject, d: SchemaData, nullable: bool) -> bool {
    &&& d.nullable == nullable
    &&& match o.metadata {
        None => {
            &&& !d.read_only
            &&& !d.write_only
            &&& !d.deprecated
            &&& d.example is None
            &&& d.title is None
            &&& d.description is None
            &&& d.default is None
            &&& d.extensions@.len() == 0
        },
        Some(m) => {
            &&& d.read_only == m.read_only
            &&& d.write_only == m.write_only
            &&& d.deprecated == m.deprecated
            &&& d.example == (if m.examples@.len() > 0 {
                Some(m.examples@[0])
            } else {
                None
            })
            &&& d.title == m.title
            &&& d.description == m.description
            &&& d.default == m.default
            &&& d.extensions@ == o.extensions@
        },
    }
}

/// Whether the node is nullable: it names `null` and yields at most one type
/// schema.
pub open spec fn nullable_of(o: SchemaObject) -> bool {
    has_type(o, InstanceType::Null) && type_count(o) <= 1
}

/// Whether `rs` is `ss` converted one by one.
pub open spec fn list_converted(ss: Seq<JsonSchema>, rs: Seq<SchemaRef>) -> bool
    decreases ss, 0int, 0int,
{
    &&& ss.len() == rs.len()
    &&& ss.len() > 0 ==> {
        &&& converted(ss[0], rs[0])
        &&& list_converted(ss.subrange(1, ss.len() as int), rs.subrange(1, rs.len() as int))
    }
}

/// Whether `rs` is the properties `ps` converted one by one, names kept.
pub open spec fn props_converted(ps: Seq<(String, JsonSchema)>, rs: Seq<(String, SchemaRef)>) -> bool
    decreases ps, 0int, 0int,
{
    &&& ps.len() == rs.len()
    &&& ps.len() > 0 ==> {
        &&& rs[0].0 == ps[0].0
        &&& converted(ps[0].1, rs[0].1)
        &&& props_converted(ps.subrange(1, ps.len() as int), rs.subrange(1, rs.len() as int))
    }
}

/// Whether the composition keywords of `a` are those of the node, converted.
pub open spec fn composition_ok(o: SchemaObject, a: AnySchema) -> bool
    decreases o, 1int, 0int,
{
    match o.subschemas {
        None => a.all_of@.len() == 0 && a.any_of@.len() == 0 && a.one_of@.len() == 0 && a.not is None,
        Some(sub) => {
            &&& match sub.all_of {
                Some(v) => list_converted(v@, a.all_of@),
                None => a.all_of@.len() == 0,
            }
            &&& match sub.any_of {
                Some(v) => list_converted(v@, a.any_of@),
                None => a.any_of@.len() == 0,
            }
            &&& match sub.one_of {
                Some(v) => list_converted(v@, a.one_of@),
                None => a.one_of@.len() == 0,
            }
            &&& match sub.not {
                Some(n) => a.not is Some && converted(*n, *a.not->0),
                None => a.not is None,
            }
        },
    }
}

/// The object type schema of a node.
pub open spec fn object_schema_ok(o: SchemaObject, a: AnySchema) -> bool
    decreases o, 1int, 0int,
{
    &&& object_common_ok(o, a)
    &&& match o.object {
        None => true,
        Some(ov) => {
            &&& props_converted(ov.properties@, a.properties@)
            &&& match ov.additional_properties {
                None => a.additional_properties is None,
                Some(ap) => match *ap {
                    JsonSchema::Bool(b) => a.additional_properties == Some(
                        AdditionalProperties::Any(b),
                    ),
                    JsonSchema::Object(x) => {
                        &&& a.additional_properties is Some
                        &&& a.additional_properties->0 is Schema
                        &&& object_converted(x, *a.additional_properties->0->Schema_0)
                    },
                },
            }
        },
    }
}

/// Whether the array schemas `cs` have the items `ss`, converted one by one.
pub open spec fn tuple_items_ok(ss: Seq<JsonSchema>, cs: Seq<AnySchema>) -> bool
    decreases ss, 0int, 0int,
{
    &&& ss.len() == cs.len()
    &&& ss.len() > 0 ==> {
        &&& cs[0].items is Some
        &&& converted(ss[0], *cs[0].items->0)
        &&& tuple_items_ok(ss.subrange(1, ss.len() as int), cs.subrange(1, cs.len() as int))
    }
}

/// The array type schemas of a node: one per tuple position, else one.
pub open spec fn array_schemas_ok(o: SchemaObject, cs: Seq<AnySchema>) -> bool
    decreases o, 1int, 0int,
{
    &&& forall|i: int| 0 <= i < cs.len() ==> #[trigger] array_common_ok(o, cs[i])
    &&& match o.array {
        Some(av) => match av.items {
            Some(Items::Vec(v)) => tuple_items_ok(v@, cs),
            Some(Items::Single(s)) => cs.len() == 1 && converted(*s, *cs[0].items->0),
            None => cs.len() == 1 && is_any_item(*cs[0].items->0),
        },
        None => cs.len() == 1 && is_any_item(*cs[0].items->0),
    }
}

/// Whether each of `ts` has the node's composition keywords.
pub open spec fn all_composed(o: SchemaObject, ts: Seq<AnySchema>) -> bool
    decreases o, 2int, ts.len(),
{
    ts.len() > 0 ==> {
        &&& composition_ok(o, ts[0])
        &&& all_composed(o, ts.subrange(1, ts.len() as int))
    }
}

/// Whether `ts` are the type schemas of a node, in order: boolean, object,
/// the arrays, number, string, integer, each with the node's composition
/// keywords.
pub open spec fn type_schemas_ok(o: SchemaObject, ts: Seq<AnySchema>) -> bool
    decreases o, 3int, 0int,
{
    &&& ts.len() == type_count(o)
    &&& all_composed(o, ts)
    &&& has_type(o, InstanceType::Boolean) ==> boolean_schema_ok(o, ts[0])
    &&& has_type(o, InstanceType::Object) ==> object_schema_ok(o, ts[object_slot(o)])
    &&& has_type(o, InstanceType::Array) ==> array_schemas_ok(
        o,
        ts.subrange(array_slot(o), number_slot(o)),
    )
    &&& has_type(o, InstanceType::Number) ==> numeric_schema_ok(o, ts[number_slot(o)], false)
    &&& has_type(o, InstanceType::String) ==> string_schema_ok(o, ts[string_slot(o)])
    &&& has_type(o, InstanceType::Integer) ==> numeric_schema_ok(o, ts[integer_slot(o)], true)
}

/// Whether `r` is the node `o` converted.
///
/// A `$ref` stays a reference. Otherwise the node's type schemas decide the
/// kind: none gives its composition keywords alone, one gives that schema,
/// several give a `oneOf` of them, each with empty annotations.
pub open spec fn object_converted(o: SchemaObject, r: SchemaRef) -> bool
    decreases o, 4int, 0int,
{
    match o.reference {
        Some(name) => r == SchemaRef::Reference(name),
        None => {
            &&& r is Item
            &&& data_ok(o, r->Item_0.schema_data, nullable_of(o))
            &&& if type_count(o) == 0 {
                &&& r->Item_0.schema_kind is Any
                &&& composition_ok(o, r->Item_0.schema_kind->Any_0)
                &&& {
                    let a = r->Item_0.schema_kind->Any_0;
                    &&& a.typ is None
                    &&& a.enumeration@.len() == 0
                    &&& a.format is None
                    &&& no_number_keywords(a)
                    &&& no_string_keywords(a)
                    &&& no_object_keywords(a)
                    &&& no_array_keywords(a)
                }
            } else if type_count(o) == 1 {
                &&& r->Item_0.schema_kind is Any
                &&& type_schemas_ok(o, seq![r->Item_0.schema_kind->Any_0])
            } else {
                &&& r->Item_0.schema_kind is OneOf
                &&& {
                    let members = r->Item_0.schema_kind->OneOf_0@;
                    &&& forall|i: int|
                        0 <= i < members.len() ==> {
                            &&& #[trigger] members[i] is Item
                            &&& data_is_default(members[i]->Item_0.schema_data)
                            &&& members[i]->Item_0.schema_kind is Any
                        }
                    &&& type_schemas_ok(
                        o,
                        members.map_values(|m: SchemaRef| m->Item_0.schema_kind->Any_0),
                    )
                }
            }
        },
    }
}

/// Whether `r` is the node `s` converted: `true` admits every value, `false`
/// none.
pub open spec fn converted(s: JsonSchema, r: SchemaRef) -> bool
    decreases s, 5int, 0int,
{
    match s {
        JsonSchema::Bool(b) => if b {
            is_any_item(r)
        } else {
            is_nothing_item(r)
        },
        JsonSchema::Object(o) => object_converted(o, r),
    }
}


// ---------------------------------------------------------------------------
// The conversion
// ---------------------------------------------------------------------------

/// Only the composition keywords of `a` may be set.
pub open spec fn only_composition(a: AnySchema) -> bool {
    &&& a.typ is None
    &&& a.enumeration@.len() == 0
    &&& a.format is None
    &&& no_number_keywords(a)
    &&& no_string_keywords(a)
    &&& no_object_keywords(a)
    &&& no_array_keywords(a)
}

fn default_data() -> (d: SchemaData)
    ensures
        data_is_default(d),
{
    SchemaData {
        nullable: false,
        read_only: false,
        write_only: false,
        deprecated: false,
        example: None,
        title: None,
        description: None,
        default: None,
        extensions: Vec::new(),
    }
}

fn empty_any() -> (a: AnySchema)
    ensures
        any_is_empty(a),
{
    AnySchema {
        typ: None,
        pattern: None,
        multiple_of: None,
        exclusive_minimum: None,
        exclusive_maximum: None,
        minimum: None,
        maximum: None,
        properties: Vec::new(),
        required: Vec::new(),
        additional_properties: None,
        min_properties: None,
        max_properties: None,
        items: None,
        min_items: None,
        max_items: None,
        unique_items: None,
        enumeration: Vec::new(),
        format: None,
        min_length: None,
        max_length: None,
        one_of: Vec::new(),
        all_of: Vec::new(),
        any_of: Vec::new(),
        not: None,
    }
}

/// The schema that admits every value.
pub fn any_item() -> (r: SchemaRef)
    ensures
        is_any_item(r),
{
    SchemaRef::Item(Box::new(Schema { schema_data: default_data(), schema_kind: SchemaKind::Any(empty_any()) }))
}

/// A 32-bit count in the target's size type, clamped where it would not fit.
pub fn convert_u32(input: u32) -> (r: usize)
    ensures
        r as int == count_size(input),
{
    if (input as u64) <= (usize::MAX as u64) {
        input as usize
    } else {
        usize::MAX
    }
}

fn convert_count(input: Option<u32>) -> (r: Option<usize>)
    ensures
        count_ok(input, r),
{
    match input {
        Some(x) => Some(convert_u32(x)),
        None => None,
    }
}

/// The primitive types that a node's `type` keyword names.
#[derive(Clone, Copy, Debug)]
pub struct InstanceTypes {
    /// More than one type is listed.
    pub many: bool,
    pub is_null: bool,
    pub is_boolean: bool,
    pub is_object: bool,
    pub is_array: bool,
    pub is_number: bool,
    pub is_string: bool,
    pub is_integer: bool,
}

impl InstanceTypes {
    /// Reads a `type` keyword; a type listed twice counts once.
    pub fn parse(input: &TypeList) -> (r: InstanceTypes)
        ensures
            r.many == (input is Vec && input->Vec_0@.len() > 1),
            r.is_null == names_type(*input, InstanceType::Null),
            r.is_boolean == names_type(*input, InstanceType::Boolean),
            r.is_object == names_type(*input, InstanceType::Object),
            r.is_array == names_type(*input, InstanceType::Array),
            r.is_number == names_type(*input, InstanceType::Number),
            r.is_string == names_type(*input, InstanceType::String),
            r.is_integer == names_type(*input, InstanceType::Integer),
    {
        let mut out = InstanceTypes {
            many: false,
            is_null: false,
            is_boolean: false,
            is_object: false,
            is_array: false,
            is_number: false,
            is_string: false,
            is_integer: false,
        };
        match input {
            TypeList::Single(t) => {
                out.set(*t);
            },
            TypeList::Vec(v) => {
                out.many = v.len() > 1;
                let mut i: usize = 0;
                while i < v.len()
                    invariant
                        i <= v@.len(),
                        out.many == (v@.len() > 1),
                        out.is_null == v@.subrange(0, i as int).contains(InstanceType::Null),
                        out.is_boolean == v@.subrange(0, i as int).contains(InstanceType::Boolean),
                        out.is_object == v@.subrange(0, i as int).contains(InstanceType::Object),
                        out.is_array == v@.subrange(0, i as int).contains(InstanceType::Array),
                        out.is_number == v@.subrange(0, i as int).contains(InstanceType::Number),
                        out.is_string == v@.subrange(0, i as int).contains(InstanceType::String),
                        out.is_integer == v@.subrange(0, i as int).contains(InstanceType::Integer),
                    decreases v@.len() - i,
                {
                    let ghost before = v@.subrange(0, i as int);
                    out.set(v[i]);
                    i = i + 1;
                    proof {
                        let now = v@.subrange(0, i as int);
                        assert(now =~= before.push(v@[i - 1]));
                        assert forall|t: InstanceType| now.contains(t) == (before.contains(t) || t == v@[i - 1]) by {
                            if now.contains(t) {
                                let k = choose|k: int| 0 <= k < now.len() && now[k] == t;
                                if k < before.len() {
                                    assert(before[k] == t);
                                }
                            }
                            if before.contains(t) {
                                let k = choose|k: int| 0 <= k < before.len() && before[k] == t;
                                assert(now[k] == t);
                            }
                            if t == v@[i - 1] {
                                assert(now[now.len() - 1] == t);
                            }
                        }
                    }
                }
                proof {
                    assert(v@.subrange(0, v@.len() as int) =~= v@);
                }
            },
        }
        out
    }

    fn set(&mut self, t: InstanceType)
        ensures
            final(self).many == old(self).many,
            final(self).is_null == (old(self).is_null || t == InstanceType::Null),
            final(self).is_boolean == (old(self).is_boolean || t == InstanceType::Boolean),
            final(self).is_object == (old(self).is_object || t == InstanceType::Object),
            final(self).is_array == (old(self).is_array || t == InstanceType::Array),
            final(self).is_number == (old(self).is_number || t == InstanceType::Number),
            final(self).is_string == (old(self).is_string || t == InstanceType::String),
            final(self).is_integer == (old(self).is_integer || t == InstanceType::Integer),
    {
        match t {
            InstanceType::Null => self.is_null = true,
            InstanceType::Boolean => self.is_boolean = true,
            InstanceType::Object => self.is_object = true,
            InstanceType::Array => self.is_array = true,
            InstanceType::Number => self.is_number = true,
            InstanceType::String => self.is_string = true,
            InstanceType::Integer => self.is_integer = true,
        }
    }
}

fn keeps_value(k: EnumKind, v: &JsonValue) -> (r: bool)
    ensures
        r == keeps(k, *v),
{
    match v {
        JsonValue::Null => true,
        JsonValue::Bool(_) => k == EnumKind::Boolean,
        JsonValue::Number(n) => k == EnumKind::Number || (k == EnumKind::Integer && n.is_integer()),
        JsonValue::String(_) => k == EnumKind::String,
        _ => false,
    }
}

/// The node's `enum` values that a type of kind `k` keeps.
fn kept_values(o: &SchemaObject, k: EnumKind) -> (r: Vec<JsonValue>)
    ensures
        r@ == kept(enum_of(*o), k),
{
    let mut out: Vec<JsonValue> = Vec::new();
    match &o.enum_values {
        None => {},
        Some(vals) => {
            let mut i: usize = 0;
            while i < vals.len()
                invariant
                    i <= vals@.len(),
                    out@ == kept(vals@.subrange(0, i as int), k),
                decreases vals@.len() - i,
            {
                if keeps_value(k, &vals[i]) {
                    out.push(vals[i].deep_copy());
                }
                i = i + 1;
                proof {
                    assert(vals@.subrange(0, i as int).drop_last() =~= vals@.subrange(0, i - 1));
                }
            }
            proof {
                assert(vals@.subrange(0, vals@.len() as int) =~= vals@);
            }
        },
    }
    out
}

/// Converts each schema of a list.
fn convert_list(v: &Vec<JsonSchema>) -> (r: Vec<SchemaRef>)
    ensures
        list_converted(v@, r@),
    decreases v, 0int,
{
    let mut out: Vec<SchemaRef> = Vec::new();
    let mut i: usize = 0;
    while i < v.len()
        invariant
            i <= v@.len(),
            out@.len() == i,
            forall|j: int| 0 <= j < i ==> #[trigger] converted(v@[j], out@[j]),
        decreases v@.len() - i,
    {
        proof {
            assert(decreases_to!(*v => v@[i as int]));
        }
        let c = convert_schema(&v[i]);
        out.push(c);
        i = i + 1;
    }
    proof {
        lemma_list_converted(v@, out@);
    }
    out
}

/// The composition keywords of a node, converted, and nothing else.
fn composition(o: &SchemaObject) -> (a: AnySchema)
    ensures
        composition_ok(*o, a),
        only_composition(a),
    decreases o, 1int,
{
    let mut a = empty_any();
    match &o.subschemas {
        None => {},
        Some(sub) => {
            match &sub.all_of {
                Some(v) => {
                    a.all_of = convert_list(v);
                },
                None => {},
            }
            match &sub.any_of {
                Some(v) => {
                    a.any_of = convert_list(v);
                },
                None => {},
            }
            match &sub.one_of {
                Some(v) => {
                    a.one_of = convert_list(v);
                },
                None => {},
            }
            match &sub.not {
                Some(n) => {
                    a.not = Some(Box::new(convert_schema(n)));
                },
                None => {},
            }
        },
    }
    a
}

/// Converts a node.
pub fn convert_schema(schema: &JsonSchema) -> (r: SchemaRef)
    ensures
        converted(*schema, r),
    decreases schema, 6int,
{
    match schema {
        JsonSchema::Bool(b) => {
            if *b {
                any_item()
            } else {
                SchemaRef::Item(
                    Box::new(
                        Schema {
                            schema_data: default_data(),
                            schema_kind: SchemaKind::Not(Box::new(any_item())),
                        },
                    ),
                )
            }
        },
        JsonSchema::Object(o) => convert_schema_object(o),
    }
}

fn convert_schema_object(o: &SchemaObject) -> (r: SchemaRef)
    ensures
        object_converted(*o, r),
    decreases o, 5int,
{
    match &o.reference {
        Some(name) => {
            return SchemaRef::Reference(name.clone());
        },
        None => {},
    }
    let mut types = type_schemas(o);
    let n = types.len();
    let nullable = has_type_exec(o, InstanceType::Null) && n <= 1;
    proof {
        assert(nullable == nullable_of(*o));
    }
    let data = schema_data(o, nullable);
    if n == 0 {
        SchemaRef::Item(Box::new(Schema { schema_data: data, schema_kind: SchemaKind::Any(composition(o)) }))
    } else if n == 1 {
        let ghost ts = types@;
        let t = types.pop().unwrap();
        proof {
            assert(seq![t] =~= ts);
        }
        SchemaRef::Item(Box::new(Schema { schema_data: data, schema_kind: SchemaKind::Any(t) }))
    } else {
        let members = wrap_each(types);
        SchemaRef::Item(Box::new(Schema { schema_data: data, schema_kind: SchemaKind::OneOf(members) }))
    }
}

/// Whether a node names `t` as its type or among its types.
fn has_type_exec(o: &SchemaObject, t: InstanceType) -> (r: bool)
    ensures
        r == has_type(*o, t),
{
    match &o.instance_type {
        None => false,
        Some(list) => {
            let flags = InstanceTypes::parse(list);
            match t {
                InstanceType::Null => flags.is_null,
                InstanceType::Boolean => flags.is_boolean,
                InstanceType::Object => flags.is_object,
                InstanceType::Array => flags.is_array,
                InstanceType::Number => flags.is_number,
                InstanceType::String => flags.is_string,
                InstanceType::Integer => flags.is_integer,
            }
        },
    }
}

/// The type schemas of a node, in order: boolean, object, the arrays, number,
/// string, integer.
#[verifier::rlimit(60)]
fn type_schemas(o: &SchemaObject) -> (types: Vec<AnySchema>)
    ensures
        type_schemas_ok(*o, types@),
    decreases o, 4int,
{
    let mut types: Vec<AnySchema> = Vec::new();
    match &o.instance_type {
        None => {},
        Some(list) => {
            let flags = InstanceTypes::parse(list);
            let ghost mut bs: Seq<AnySchema> = Seq::empty();
            let ghost mut os: Seq<AnySchema> = Seq::empty();
            let ghost mut arrs: Seq<AnySchema> = Seq::empty();
            let ghost mut ns: Seq<AnySchema> = Seq::empty();
            let ghost mut strs: Seq<AnySchema> = Seq::empty();
            let ghost mut ints: Seq<AnySchema> = Seq::empty();
            if flags.is_boolean {
                let t = boolean_type(o);
                proof {
                    bs = seq![t];
                }
                types.push(t);
            }
            if flags.is_object {
                let t = object_type(o);
                proof {
                    os = seq![t];
                }
                types.push(t);
            }
            if flags.is_array {
                let mut arrays = array_types(o);
                proof {
                    arrs = arrays@;
                }
                types.append(&mut arrays);
            }
            if flags.is_number {
                let t = number_type(o, false);
                proof {
                    ns = seq![t];
                }
                types.push(t);
            }
            if flags.is_string {
                let t = string_type(o);
                proof {
                    strs = seq![t];
                }
                types.push(t);
            }
            if flags.is_integer {
                let t = number_type(o, true);
                proof {
                    ints = seq![t];
                }
                types.push(t);
            }
            proof {
                assert(types@ =~= bs + os + arrs + ns + strs + ints);
                lemma_type_schemas(*o, bs, os, arrs, ns, strs, ints);
            }
        },
    }
    proof {
        if o.instance_type is None {
            lemma_type_schemas(*o, Seq::empty(), Seq::empty(), Seq::empty(), Seq::empty(), Seq::empty(), Seq::empty());
            assert(types@ =~= Seq::<AnySchema>::empty() + Seq::empty() + Seq::empty() + Seq::empty() + Seq::empty() + Seq::empty());
        }
    }
    types
}

/// Each schema as an inline schema with empty annotations, in order.
fn wrap_each(types: Vec<AnySchema>) -> (r: Vec<SchemaRef>)
    ensures
        r@.len() == types@.len(),
        forall|i: int|
            0 <= i < r@.len() ==> {
                &&& #[trigger] r@[i] is Item
                &&& data_is_default(r@[i]->Item_0.schema_data)
                &&& r@[i]->Item_0.schema_kind == SchemaKind::Any(types@[i])
            },
        r@.map_values(|m: SchemaRef| m->Item_0.schema_kind->Any_0) == types@,
{
    let ghost orig = types@;
    let mut rest = types;
    let mut out: Vec<SchemaRef> = Vec::new();
    while rest.len() > 0
        invariant
            out@.len() + rest@.len() == orig.len(),
            rest@ == orig.subrange(out@.len() as int, orig.len() as int),
            forall|i: int|
                0 <= i < out@.len() ==> {
                    &&& #[trigger] out@[i] is Item
                    &&& data_is_default(out@[i]->Item_0.schema_data)
                    &&& out@[i]->Item_0.schema_kind == SchemaKind::Any(orig[i])
                },
        decreases rest@.len(),
    {
        let t = rest.remove(0);
        out.push(SchemaRef::Item(Box::new(Schema { schema_data: default_data(), schema_kind: SchemaKind::Any(t) })));
        proof {
            assert(rest@ =~= orig.subrange(out@.len() as int, orig.len() as int));
        }
    }
    proof {
        assert(out@.map_values(|m: SchemaRef| m->Item_0.schema_kind->Any_0) =~= orig);
    }
    out
}

fn boolean_type(o: &SchemaObject) -> (a: AnySchema)
    ensures
        composition_ok(*o, a),
        boolean_schema_ok(*o, a),
    decreases o, 3int,
{
    let mut a = composition(o);
    a.typ = Some(TypeName::Boolean);
    a.enumeration = kept_values(o, EnumKind::Boolean);
    a
}

fn number_type(o: &SchemaObject, integer: bool) -> (a: AnySchema)
    ensures
        composition_ok(*o, a),
        numeric_schema_ok(*o, a, integer),
    decreases o, 3int,
{
    let mut a = composition(o);
    a.typ = Some(if integer { TypeName::Integer } else { TypeName::Number });
    a.format = copy_opt_string(&o.format);
    match o.number {
        None => {},
        Some(n) => {
            let maximum = if n.exclusive_maximum.is_some() { n.exclusive_maximum } else { n.maximum };
            let minimum = if n.exclusive_minimum.is_some() { n.exclusive_minimum } else { n.minimum };
            a.multiple_of = n.multiple_of;
            a.exclusive_maximum = if maximum.is_some() { Some(n.exclusive_maximum.is_some()) } else { None };
            a.exclusive_minimum = if minimum.is_some() { Some(n.exclusive_minimum.is_some()) } else { None };
            a.maximum = maximum;
            a.minimum = minimum;
        },
    }
    a.enumeration = kept_values(o, if integer { EnumKind::Integer } else { EnumKind::Number });
    a
}

fn string_type(o: &SchemaObject) -> (a: AnySchema)
    ensures
        composition_ok(*o, a),
        string_schema_ok(*o, a),
    decreases o, 3int,
{
    let mut a = composition(o);
    a.typ = Some(TypeName::String);
    a.format = copy_opt_string(&o.format);
    match &o.string {
        None => {},
        Some(sv) => {
            a.pattern = copy_opt_string(&sv.pattern);
            a.min_length = convert_count(sv.min_length);
            a.max_length = convert_count(sv.max_length);
        },
    }
    a.enumeration = kept_values(o, EnumKind::String);
    a
}

/// Converts each property schema, names kept.
pub(crate) fn convert_properties(ps: &Vec<(String, JsonSchema)>) -> (r: Vec<(String, SchemaRef)>)
    ensures
        props_converted(ps@, r@),
    decreases ps, 0int,
{
    let mut out: Vec<(String, SchemaRef)> = Vec::new();
    let mut i: usize = 0;
    while i < ps.len()
        invariant
            i <= ps@.len(),
            out@.len() == i,
            forall|j: int| 0 <= j < i ==> #[trigger] prop_ok(ps@[j], out@[j]),
        decreases ps@.len() - i,
    {
        proof {
            assert(decreases_to!(*ps => ps@[i as int]));
        }
        let c = convert_schema(&ps[i].1);
        out.push((ps[i].0.clone(), c));
        proof {
            assert(prop_ok(ps@[i as int], out@[i as int]));
        }
        i = i + 1;
    }
    proof {
        lemma_props_converted(ps@, out@);
    }
    out
}

fn object_type(o: &SchemaObject) -> (a: AnySchema)
    ensures
        composition_ok(*o, a),
        object_schema_ok(*o, a),
    decreases o, 3int,
{
    let mut a = composition(o);
    a.typ = Some(TypeName::Object);
    match &o.object {
        None => {},
        Some(ov) => {
            a.properties = convert_properties(&ov.properties);
            a.required = copy_strings(&ov.required);
            a.additional_properties = match &ov.additional_properties {
                None => None,
                Some(ap) => match &**ap {
                    JsonSchema::Bool(b) => Some(AdditionalProperties::Any(*b)),
                    JsonSchema::Object(x) => Some(
                        AdditionalProperties::Schema(Box::new(convert_schema_object(x))),
                    ),
                },
            };
            a.min_properties = convert_count(ov.min_properties);
            a.max_properties = convert_count(ov.max_properties);
        },
    }
    a
}

/// An array schema with the node's composition and array keywords, and the
/// given items.
fn array_with_items(o: &SchemaObject, items: SchemaRef) -> (a: AnySchema)
    ensures
        composition_ok(*o, a),
        array_common_ok(*o, a),
        a.items == Some(Box::new(items)),
    decreases o, 2int,
{
    let mut a = composition(o);
    a.typ = Some(TypeName::Array);
    match &o.array {
        None => {},
        Some(av) => {
            a.min_items = convert_count(av.min_items);
            a.max_items = convert_count(av.max_items);
            a.unique_items = av.unique_items;
        },
    }
    a.items = Some(Box::new(items));
    a
}

/// The array schemas of a node: one per tuple position, else one.
fn array_types(o: &SchemaObject) -> (cs: Vec<AnySchema>)
    ensures
        forall|i: int| 0 <= i < cs@.len() ==> #[trigger] composition_ok(*o, cs@[i]),
        array_schemas_ok(*o, cs@),
        o.instance_type is Some && names_type(o.instance_type->0, InstanceType::Array)
            ==> cs@.len() == array_fan_out(*o),
    decreases o, 3int,
{
    let mut out: Vec<AnySchema> = Vec::new();
    match &o.array {
        Some(av) => match &av.items {
            Some(Items::Vec(v)) => {
                let mut items = convert_list(v);
                proof {
                    lemma_list_converted_at(v@, items@);
                }
                let ghost all = items@;
                while items.len() > 0
                    invariant
                        out@.len() + items@.len() == all.len(),
                        all.len() == v@.len(),
                        items@ == all.subrange(out@.len() as int, all.len() as int),
                        forall|j: int| 0 <= j < all.len() ==> #[trigger] converted(v@[j], all[j]),
                        forall|j: int| 0 <= j < out@.len() ==> #[trigger] composition_ok(*o, out@[j]),
                        forall|j: int| 0 <= j < out@.len() ==> #[trigger] array_common_ok(*o, out@[j]),
                        forall|j: int|
                            0 <= j < out@.len() ==> #[trigger] out@[j].items == Some(Box::new(all[j])),
                    decreases items@.len(),
                {
                    let item = items.remove(0);
                    out.push(array_with_items(o, item));
                    proof {
                        assert(items@ =~= all.subrange(out@.len() as int, all.len() as int));
                    }
                }
                proof {
                    assert forall|j: int| 0 <= j < out@.len() implies #[trigger] item_ok(v@[j], out@[j]) by {
                        assert(out@[j].items == Some(Box::new(all[j])));
                        assert(converted(v@[j], all[j]));
                    }
                    lemma_tuple_items(v@, out@);
                }
            },
            Some(Items::Single(s)) => {
                let item = convert_schema(s);
                out.push(array_with_items(o, item));
            },
            None => {
                out.push(array_with_items(o, any_item()));
            },
        },
        None => {
            out.push(array_with_items(o, any_item()));
        },
    }
    out
}

/// The annotations of a node.
fn schema_data(o: &SchemaObject, nullable: bool) -> (d: SchemaData)
    ensures
        data_ok(*o, d, nullable),
{
    match &o.metadata {
        None => {
            let mut d = default_data();
            d.nullable = nullable;
            d
        },
        Some(m) => {
            let example = if m.examples.len() > 0 {
                Some(m.examples[0].deep_copy())
            } else {
                None
            };
            SchemaData {
                nullable,
                read_only: m.read_only,
                write_only: m.write_only,
                deprecated: m.deprecated,
                example,
                title: copy_opt_string(&m.title),
                description: copy_opt_string(&m.description),
                default: copy_opt_value(&m.default),
                extensions: copy_members(&o.extensions),
            }
        },
    }
}



// ---------------------------------------------------------------------------
// Lists, one element at a time
// ---------------------------------------------------------------------------

/// A property converted, its name kept.
pub open spec fn prop_ok(p: (String, JsonSchema), r: (String, SchemaRef)) -> bool {
    r.0 == p.0 && converted(p.1, r.1)
}

/// An array schema whose items are `s` converted.
pub open spec fn item_ok(s: JsonSchema, c: AnySchema) -> bool {
    c.items is Some && converted(s, *c.items->0)
}

proof fn lemma_list_converted(ss: Seq<JsonSchema>, rs: Seq<SchemaRef>)
    requires
        ss.len() == rs.len(),
        forall|i: int| 0 <= i < ss.len() ==> #[trigger] converted(ss[i], rs[i]),
    ensures
        list_converted(ss, rs),
    decreases ss.len(),
{
    reveal_with_fuel(list_converted, 2);
    if ss.len() > 0 {
        lemma_list_converted(ss.subrange(1, ss.len() as int), rs.subrange(1, rs.len() as int));
        assert(converted(ss[0], rs[0]));
        assert(list_converted(ss.subrange(1, ss.len() as int), rs.subrange(1, rs.len() as int)));
        assert(list_converted(ss, rs));
    }
}

proof fn lemma_list_converted_at(ss: Seq<JsonSchema>, rs: Seq<SchemaRef>)
    requires
        list_converted(ss, rs),
    ensures
        ss.len() == rs.len(),
        forall|i: int| 0 <= i < ss.len() ==> #[trigger] converted(ss[i], rs[i]),
    decreases ss.len(),
{
    reveal_with_fuel(list_converted, 2);
    if ss.len() > 0 {
        let (ts, us) = (ss.subrange(1, ss.len() as int), rs.subrange(1, rs.len() as int));
        lemma_list_converted_at(ts, us);
        assert forall|i: int| 0 <= i < ss.len() implies #[trigger] converted(ss[i], rs[i]) by {
            if i > 0 {
                assert(ts[i - 1] == ss[i] && us[i - 1] == rs[i]);
            }
        }
    }
}

/// The names of converted properties, position by position.
pub proof fn lemma_props_converted_names(ps: Seq<(String, JsonSchema)>, rs: Seq<(String, SchemaRef)>)
    requires
        props_converted(ps, rs),
    ensures
        ps.len() == rs.len(),
        forall|i: int| 0 <= i < ps.len() ==> #[trigger] rs[i].0 == ps[i].0,
    decreases ps.len(),
{
    if ps.len() > 0 {
        let (qs, us) = (ps.subrange(1, ps.len() as int), rs.subrange(1, rs.len() as int));
        lemma_props_converted_names(qs, us);
        assert forall|i: int| 0 <= i < ps.len() implies #[trigger] rs[i].0 == ps[i].0 by {
            if i > 0 {
                assert(qs[i - 1] == ps[i] && us[i - 1] == rs[i]);
            }
        }
    }
}

proof fn lemma_props_converted(ps: Seq<(String, JsonSchema)>, rs: Seq<(String, SchemaRef)>)
    requires
        ps.len() == rs.len(),
        forall|i: int| 0 <= i < ps.len() ==> #[trigger] prop_ok(ps[i], rs[i]),
    ensures
        props_converted(ps, rs),
    decreases ps.len(),
{
    if ps.len() > 0 {
        let (qs, us) = (ps.subrange(1, ps.len() as int), rs.subrange(1, rs.len() as int));
        assert forall|i: int| 0 <= i < qs.len() implies #[trigger] prop_ok(qs[i], us[i]) by {
            assert(qs[i] == ps[i + 1] && us[i] == rs[i + 1]);
            assert(prop_ok(ps[i + 1], rs[i + 1]));
        }
        lemma_props_converted(qs, us);
        assert(prop_ok(ps[0], rs[0]));
        assert(converted(ps[0].1, rs[0].1));
        assert(props_converted(qs, us));
    }
}

proof fn lemma_tuple_items(ss: Seq<JsonSchema>, cs: Seq<AnySchema>)
    requires
        ss.len() == cs.len(),
        forall|i: int| 0 <= i < ss.len() ==> #[trigger] item_ok(ss[i], cs[i]),
    ensures
        tuple_items_ok(ss, cs),
    decreases ss.len(),
{
    if ss.len() > 0 {
        let (ts, ds) = (ss.subrange(1, ss.len() as int), cs.subrange(1, cs.len() as int));
        assert forall|i: int| 0 <= i < ts.len() implies #[trigger] item_ok(ts[i], ds[i]) by {
            assert(ts[i] == ss[i + 1] && ds[i] == cs[i + 1]);
            assert(item_ok(ss[i + 1], cs[i + 1]));
        }
        lemma_tuple_items(ts, ds);
        assert(item_ok(ss[0], cs[0]));
        assert(converted(ss[0], *cs[0].items->0));
        assert(tuple_items_ok(ts, ds));
    }
}

proof fn lemma_type_schemas(
    o: SchemaObject,
    bs: Seq<AnySchema>,
    os: Seq<AnySchema>,
    arrs: Seq<AnySchema>,
    ns: Seq<AnySchema>,
    strs: Seq<AnySchema>,
    ints: Seq<AnySchema>,
)
    requires
        bs.len() == count(has_type(o, InstanceType::Boolean)),
        os.len() == count(has_type(o, InstanceType::Object)),
        arrs.len() == array_fan_out(o),
        ns.len() == count(has_type(o, InstanceType::Number)),
        strs.len() == count(has_type(o, InstanceType::String)),
        ints.len() == count(has_type(o, InstanceType::Integer)),
        bs.len() > 0 ==> boolean_schema_ok(o, bs[0]) && composition_ok(o, bs[0]),
        os.len() > 0 ==> object_schema_ok(o, os[0]) && composition_ok(o, os[0]),
        has_type(o, InstanceType::Array) ==> array_schemas_ok(o, arrs),
        forall|i: int| 0 <= i < arrs.len() ==> #[trigger] composition_ok(o, arrs[i]),
        ns.len() > 0 ==> numeric_schema_ok(o, ns[0], false) && composition_ok(o, ns[0]),
        strs.len() > 0 ==> string_schema_ok(o, strs[0]) && composition_ok(o, strs[0]),
        ints.len() > 0 ==> numeric_schema_ok(o, ints[0], true) && composition_ok(o, ints[0]),
    ensures
        type_schemas_ok(o, bs + os + arrs + ns + strs + ints),
{
    let ts = bs + os + arrs + ns + strs + ints;
    let a: int = bs.len() as int;
    let b: int = a + os.len();
    let c: int = b + arrs.len();
    let d: int = c + ns.len();
    let e: int = d + strs.len();
    assert(a == object_slot(o) && b == array_slot(o) && c == number_slot(o));
    assert(d == string_slot(o) && e == integer_slot(o) && ts.len() == type_count(o));
    assert forall|i: int| 0 <= i < ts.len() implies #[trigger] composition_ok(o, ts[i]) by {
        if i < a {
            assert(ts[i] == bs[i]);
        } else if i < b {
            assert(ts[i] == os[i - a]);
        } else if i < c {
            assert(ts[i] == arrs[i - b]);
        } else if i < d {
            assert(ts[i] == ns[i - c]);
        } else if i < e {
            assert(ts[i] == strs[i - d]);
        } else {
            assert(ts[i] == ints[i - e]);
        }
    }
    lemma_all_composed(o, ts);
    if bs.len() > 0 {
        assert(ts[0] == bs[0]);
    }
    if os.len() > 0 {
        assert(ts[a] == os[0]);
    }
    assert(ts.subrange(b, c) =~= arrs);
    if ns.len() > 0 {
        assert(ts[c] == ns[0]);
    }
    if strs.len() > 0 {
        assert(ts[d] == strs[0]);
    }
    if ints.len() > 0 {
        assert(ts[e] == ints[0]);
    }
}

proof fn lemma_tuple_items_at(ss: Seq<JsonSchema>, cs: Seq<AnySchema>)
    requires
        tuple_items_ok(ss, cs),
    ensures
        ss.len() == cs.len(),
        forall|i: int| 0 <= i < ss.len() ==> #[trigger] item_ok(ss[i], cs[i]),
    decreases ss.len(),
{
    if ss.len() > 0 {
        let (ts, ds) = (ss.subrange(1, ss.len() as int), cs.subrange(1, cs.len() as int));
        lemma_tuple_items_at(ts, ds);
        assert(converted(ss[0], *cs[0].items->0));
        assert forall|i: int| 0 <= i < ss.len() implies #[trigger] item_ok(ss[i], cs[i]) by {
            if i > 0 {
                assert(ts[i - 1] == ss[i] && ds[i - 1] == cs[i]);
                assert(item_ok(ts[i - 1], ds[i - 1]));
            }
        }
    }
}

proof fn lemma_all_composed(o: SchemaObject, ts: Seq<AnySchema>)
    requires
        forall|i: int| 0 <= i < ts.len() ==> #[trigger] composition_ok(o, ts[i]),
    ensures
        all_composed(o, ts),
    decreases ts.len(),
{
    reveal_with_fuel(all_composed, 2);
    if ts.len() > 0 {
        let us = ts.subrange(1, ts.len() as int);
        assert forall|i: int| 0 <= i < us.len() implies #[trigger] composition_ok(o, us[i]) by {
            assert(us[i] == ts[i + 1]);
        }
        lemma_all_composed(o, us);
        assert(composition_ok(o, ts[0]));
        assert(all_composed(o, us));
    }
}

// ---------------------------------------------------------------------------
// Laws of the conversion
// ---------------------------------------------------------------------------

/// Whether the types a node names are exactly `ts`.
pub open spec fn types_exactly(o: SchemaObject, ts: Set<InstanceType>) -> bool {
    forall|t: InstanceType| #[trigger] has_type(o, t) <==> ts.contains(t)
}

/// Converting `true` gives the schema without keywords, which admits every
/// value; converting `false` gives `not` of that schema, which admits none.
pub proof fn law_boolean_schemas(r_true: SchemaRef, r_false: SchemaRef)
    requires
        converted(JsonSchema::Bool(true), r_true),
        converted(JsonSchema::Bool(false), r_false),
    ensures
        is_any_item(r_true),
        is_nothing_item(r_false),
{
}

/// A node whose types are string and null converts to one string schema
/// marked nullable.
pub proof fn law_nullable_collapses(o: SchemaObject, r: SchemaRef)
    requires
        o.reference is None,
        types_exactly(o, set![InstanceType::String, InstanceType::Null]),
        converted(JsonSchema::Object(o), r),
    ensures
        r is Item,
        r->Item_0.schema_data.nullable,
        r->Item_0.schema_kind is Any,
        r->Item_0.schema_kind->Any_0.typ == Some(TypeName::String),
{
    assert(object_converted(o, r));
    assert(has_type(o, InstanceType::String) && has_type(o, InstanceType::Null));
    assert(!has_type(o, InstanceType::Boolean) && !has_type(o, InstanceType::Object));
    assert(!has_type(o, InstanceType::Array) && !has_type(o, InstanceType::Number));
    assert(!has_type(o, InstanceType::Integer));
    assert(type_count(o) == 1);
    let a = r->Item_0.schema_kind->Any_0;
    assert(type_schemas_ok(o, seq![a]));
    assert(string_slot(o) == 0);
    assert(seq![a][0] == a);
}

/// A node whose types are string, number and null converts to a `oneOf` of
/// two schemas, and the node itself is not marked nullable.
pub proof fn law_nullable_dropped(o: SchemaObject, r: SchemaRef)
    requires
        o.reference is None,
        types_exactly(o, set![InstanceType::String, InstanceType::Number, InstanceType::Null]),
        converted(JsonSchema::Object(o), r),
    ensures
        r is Item,
        !r->Item_0.schema_data.nullable,
        r->Item_0.schema_kind is OneOf,
        r->Item_0.schema_kind->OneOf_0@.len() == 2,
{
    assert(object_converted(o, r));
    assert(has_type(o, InstanceType::String) && has_type(o, InstanceType::Null));
    assert(has_type(o, InstanceType::Number));
    assert(!has_type(o, InstanceType::Boolean) && !has_type(o, InstanceType::Object));
    assert(!has_type(o, InstanceType::Array) && !has_type(o, InstanceType::Integer));
    assert(type_count(o) == 2);
}

/// A node that names the array type and whose `items` is a tuple of two or
/// more schemas converts to a `oneOf` in which exactly one array schema stands
/// per tuple position, each with the node's length and uniqueness keywords and
/// with that position's schema, converted, as its items; the other members are
/// the schemas of the node's other types.
pub proof fn law_array_fan_out(o: SchemaObject, r: SchemaRef)
    requires
        o.reference is None,
        has_type(o, InstanceType::Array),
        o.array is Some,
        o.array->0.items is Some,
        o.array->0.items->0 is Vec,
        o.array->0.items->0->Vec_0@.len() >= 2,
        converted(JsonSchema::Object(o), r),
    ensures
        r is Item,
        r->Item_0.schema_kind is OneOf,
        ({
            let members = r->Item_0.schema_kind->OneOf_0@;
            let n = o.array->0.items->0->Vec_0@.len();
            &&& number_slot(o) - array_slot(o) == n
            &&& forall|i: int|
                0 <= i < members.len() ==> {
                    let a = (#[trigger] members[i])->Item_0.schema_kind->Any_0;
                    &&& (a.typ == Some(TypeName::Array) <==> array_slot(o) <= i < number_slot(o))
                    &&& a.typ == Some(TypeName::Array) ==> {
                        &&& count_ok(o.array->0.min_items, a.min_items)
                        &&& count_ok(o.array->0.max_items, a.max_items)
                        &&& a.unique_items == o.array->0.unique_items
                    }
                }
            &&& forall|k: int|
                0 <= k < n ==> #[trigger] item_ok(
                    o.array->0.items->0->Vec_0@[k],
                    members[array_slot(o) + k]->Item_0.schema_kind->Any_0,
                )
        }),
{
    assert(object_converted(o, r));
    let n = o.array->0.items->0->Vec_0@.len();
    assert(array_fan_out(o) == n);
    assert(type_count(o) >= 2);
    let members = r->Item_0.schema_kind->OneOf_0@;
    let ts = members.map_values(|m: SchemaRef| m->Item_0.schema_kind->Any_0);
    assert(type_schemas_ok(o, ts));
    let cs = ts.subrange(array_slot(o), number_slot(o));
    assert(array_schemas_ok(o, cs));
    let v = o.array->0.items->0->Vec_0@;
    lemma_tuple_items_at(v, cs);
    assert forall|k: int| 0 <= k < n implies #[trigger] item_ok(
        v[k],
        members[array_slot(o) + k]->Item_0.schema_kind->Any_0,
    ) by {
        assert(cs[k] == ts[array_slot(o) + k]);
        assert(item_ok(v[k], cs[k]));
    }
    assert forall|i: int| 0 <= i < members.len() implies {
        let a = (#[trigger] members[i])->Item_0.schema_kind->Any_0;
        &&& (a.typ == Some(TypeName::Array) <==> array_slot(o) <= i < number_slot(o))
        &&& a.typ == Some(TypeName::Array) ==> {
            &&& count_ok(o.array->0.min_items, a.min_items)
            &&& count_ok(o.array->0.max_items, a.max_items)
            &&& a.unique_items == o.array->0.unique_items
        }
    } by {
        assert(ts[i] == members[i]->Item_0.schema_kind->Any_0);
        if array_slot(o) <= i < number_slot(o) {
            assert(cs[i - array_slot(o)] == ts[i]);
            assert(array_common_ok(o, cs[i - array_slot(o)]));
        } else if i < object_slot(o) {
            assert(boolean_schema_ok(o, ts[0]));
        } else if i < array_slot(o) {
            assert(object_schema_ok(o, ts[object_slot(o)]));
        } else if i < string_slot(o) {
            assert(numeric_schema_ok(o, ts[number_slot(o)], false));
        } else if i < integer_slot(o) {
            assert(string_schema_ok(o, ts[string_slot(o)]));
        } else {
            assert(numeric_schema_ok(o, ts[integer_slot(o)], true));
        }
    }
}
} // verus!
