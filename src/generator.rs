//! The definitions table that named schemas are collected in, so that a
//! document refers to each of them by `$ref` instead of repeating it.
use vstd::prelude::*;

use crate::convert::{convert_schema, converted};
use crate::openapi::{AnySchema, ObjectType, Schema, SchemaData, SchemaKind, SchemaRef, TypeName};
use crate::schema::JsonSchema;

verus! {

/// Where named schemas live in a document.
pub open spec fn ref_path(name: Seq<char>) -> Seq<char> {
    "#/components/schemas/"@ + name
}

/// Whether some definition is named `name`.
pub open spec fn has_name(defs: Seq<(String, JsonSchema)>, name: Seq<char>) -> bool {
    exists|i: int| 0 <= i < defs.len() && #[trigger] defs[i].0@ == name
}

/// Collects named schemas and converts schemas for a document.
#[derive(Debug)]
pub struct SchemaGenerator {
    /// Named schemas in the order they were first requested; names are unique.
    pub definitions: Vec<(String, JsonSchema)>,
}

/// What [`SchemaGenerator::generate`] does: it returns a reference to `name`
/// and records `schema` under it unless the name is already taken.
pub open spec fn generated(
    old: SchemaGenerator,
    name: Seq<char>,
    schema: JsonSchema,
    new: SchemaGenerator,
    r: SchemaRef,
) -> bool {
    &&& r is Reference
    &&& r->Reference_0@ == ref_path(name)
    &&& if has_name(old.definitions@, name) {
        new.definitions@ == old.definitions@
    } else {
        &&& new.definitions@.len() == old.definitions@.len() + 1
        &&& new.definitions@.drop_last() == old.definitions@
        &&& new.definitions@.last().0@ == name
        &&& new.definitions@.last().1 == schema
    }
}

/// `defs` with `d` added unless its name is taken.
pub open spec fn with_definition(defs: Seq<(String, JsonSchema)>, d: (String, JsonSchema)) -> Seq<
    (String, JsonSchema),
> {
    if has_name(defs, d.0@) {
        defs
    } else {
        defs.push(d)
    }
}

/// `defs` with each of `more` added in order, skipping names already taken.
pub open spec fn with_definitions(defs: Seq<(String, JsonSchema)>, more: Seq<(String, JsonSchema)>) -> Seq<
    (String, JsonSchema),
>
    decreases more.len(),
{
    if more.len() == 0 {
        defs
    } else {
        with_definition(with_definitions(defs, more.drop_last()), more.last())
    }
}

/// No keyword but those of an object schema is set.
pub open spec fn is_object_shape(a: AnySchema) -> bool {
    &&& a.typ == Some(TypeName::Object)
    &&& a.pattern is None
    &&& a.multiple_of is None
    &&& a.exclusive_minimum is None
    &&& a.exclusive_maximum is None
    &&& a.minimum is None
    &&& a.maximum is None
    &&& a.items is None
    &&& a.min_items is None
    &&& a.max_items is None
    &&& a.unique_items is None
    &&& a.enumeration@.len() == 0
    &&& a.format is None
    &&& a.min_length is None
    &&& a.max_length is None
    &&& a.one_of@.len() == 0
    &&& a.all_of@.len() == 0
    &&& a.any_of@.len() == 0
    &&& a.not is None
}

/// Whether `r` is the object shape read from the converted schema `c`: present
/// exactly when `c` is an inline object schema with no other keyword.
pub open spec fn object_of(c: SchemaRef, r: Option<(ObjectType, SchemaData)>) -> bool {
    match c {
        SchemaRef::Reference(_) => r is None,
        SchemaRef::Item(s) => {
            if s.schema_kind is Any && is_object_shape(s.schema_kind->Any_0) {
                let a = s.schema_kind->Any_0;
                match r {
                    Some((ot, data)) => {
                        &&& ot.properties@ == a.properties@
                        &&& ot.required@ == a.required@
                        &&& ot.additional_properties == a.additional_properties
                        &&& ot.min_properties == a.min_properties
                        &&& ot.max_properties == a.max_properties
                        &&& data == s.schema_data
                    },
                    None => false,
                }
            } else {
                r is None
            }
        },
    }
}

impl SchemaGenerator {
    /// Names are unique.
    pub open spec fn wf(&self) -> bool {
        forall|i: int, j: int|
            0 <= i < j < self.definitions@.len() ==> #[trigger] self.definitions@[i].0@
                != #[trigger] self.definitions@[j].0@
    }

    /// A generator with no definitions.
    pub fn new() -> (g: SchemaGenerator)
        ensures
            g.wf(),
            g.definitions@.len() == 0,
    {
        SchemaGenerator { definitions: Vec::new() }
    }

    /// Where `name` stands among the definitions.
    pub fn position(&self, name: &String) -> (r: Option<usize>)
        ensures
            match r {
                Some(i) => i < self.definitions@.len() && self.definitions@[i as int].0@ == name@,
                None => !has_name(self.definitions@, name@),
            },
    {
        let mut i: usize = 0;
        while i < self.definitions.len()
            invariant
                i <= self.definitions@.len(),
                forall|k: int| 0 <= k < i ==> #[trigger] self.definitions@[k].0@ != name@,
            decreases self.definitions@.len() - i,
        {
            if self.definitions[i].0 == *name {
                return Some(i);
            }
            i = i + 1;
        }
        None
    }

    /// Returns a `$ref` to the schema named `name`, recording `schema` under
    /// that name on first request; later requests leave the table as it is.
    pub fn generate(&mut self, name: &String, schema: JsonSchema) -> (r: SchemaRef)
        requires
            old(self).wf(),
        ensures
            final(self).wf(),
            generated(*old(self), name@, schema, *final(self), r),
            final(self).definitions@ == with_definition(old(self).definitions@, (*name, schema)),
    {
        let mut text = String::from_str("#/components/schemas/");
        text.append(name.as_str());
        match self.position(name) {
            Some(_) => {},
            None => {
                let ghost before = self.definitions@;
                self.definitions.push((name.clone(), schema));
                proof {
                    assert(self.definitions@.drop_last() =~= before);
                    assert forall|i: int, j: int|
                        0 <= i < j < self.definitions@.len() implies #[trigger] self.definitions@[i].0@
                        != #[trigger] self.definitions@[j].0@ by {
                        if j == before.len() {
                            assert(before[i].0@ != name@);
                        } else {
                            assert(self.definitions@[i] == before[i] && self.definitions@[j] == before[j]);
                        }
                    }
                }
            },
        }
        SchemaRef::Reference(text)
    }

    /// Converts a schema that is not named (it stands inline wherever used).
    pub fn generate_inline(&self, schema: &JsonSchema) -> (r: SchemaRef)
        ensures
            converted(*schema, r),
    {
        convert_schema(schema)
    }

    /// Records each named schema whose name is not taken yet (the schemas a
    /// type's schema refers to), in order.
    pub fn define_all(&mut self, defs: Vec<(String, JsonSchema)>)
        requires
            old(self).wf(),
        ensures
            final(self).wf(),
            final(self).definitions@ == with_definitions(old(self).definitions@, defs@),
    {
        let n = defs.len();
        let ghost start = self.definitions@;
        let ghost all = defs@;
        let mut rest = defs;
        let mut k: usize = 0;
        while rest.len() > 0
            invariant
                self.wf(),
                all.len() == n,
                k + rest@.len() == all.len(),
                rest@ == all.subrange(k as int, all.len() as int),
                self.definitions@ == with_definitions(start, all.subrange(0, k as int)),
            decreases rest@.len(),
        {
            let (name, schema) = rest.remove(0);
            proof {
                assert((name, schema) == all[k as int]);
                assert(all.subrange(0, k + 1).drop_last() =~= all.subrange(0, k as int));
            }
            self.generate(&name, schema);
            k = k + 1;
            proof {
                assert(rest@ =~= all.subrange(k as int, all.len() as int));
            }
        }
        proof {
            assert(all.subrange(0, k as int) =~= all);
        }
    }

    /// Converts `schema` itself rather than referring to it; fails with the
    /// name when the schema is itself a `$ref`.
    pub fn generate_refless(&self, schema: &JsonSchema) -> (r: Result<Schema, String>)
        ensures
            r is Err <==> (schema is Object && schema->Object_0.reference is Some),
            match r {
                Ok(s) => converted(*schema, SchemaRef::Item(Box::new(s))),
                Err(name) => name == schema->Object_0.reference->0,
            },
    {
        let c = convert_schema(schema);
        proof {
            reveal_with_fuel(converted, 2);
        }
        match c {
            SchemaRef::Item(s) => Ok(*s),
            SchemaRef::Reference(name) => Err(name),
        }
    }

    /// The object shape of `schema`, for reading parameters from it: none
    /// unless it converts to an inline object schema with no other keyword.
    pub fn generate_object(&self, schema: &JsonSchema) -> (r: Option<(ObjectType, SchemaData)>)
        ensures
            exists|c: SchemaRef| converted(*schema, c) && object_of(c, r),
    {
        let c = convert_schema(schema);
        let ghost g = c;
        let r = match c {
            SchemaRef::Reference(_) => None,
            SchemaRef::Item(s) => {
                let s = *s;
                match s.schema_kind {
                    SchemaKind::Any(a) => {
                        if object_shape(&a) {
                            Some(
                                (
                                    ObjectType {
                                        properties: a.properties,
                                        required: a.required,
                                        additional_properties: a.additional_properties,
                                        min_properties: a.min_properties,
                                        max_properties: a.max_properties,
                                    },
                                    s.schema_data,
                                ),
                            )
                        } else {
                            None
                        }
                    },
                    _ => None,
                }
            },
        };
        proof {
            assert(converted(*schema, g) && object_of(g, r));
        }
        r
    }
}

pub(crate) fn object_shape(a: &AnySchema) -> (r: bool)
    ensures
        r == is_object_shape(*a),
{
    a.typ == Some(TypeName::Object) && a.pattern.is_none() && a.multiple_of.is_none()
        && a.exclusive_minimum.is_none() && a.exclusive_maximum.is_none() && a.minimum.is_none()
        && a.maximum.is_none() && a.items.is_none() && a.min_items.is_none() && a.max_items.is_none()
        && a.unique_items.is_none() && a.enumeration.len() == 0 && a.format.is_none()
        && a.min_length.is_none() && a.max_length.is_none() && a.one_of.len() == 0
        && a.all_of.len() == 0 && a.any_of.len() == 0 && a.not.is_none()
}

/// Asking twice for the same named schema gives the same `$ref` text, and the
/// second request leaves the table as it is: the name is recorded once.
pub proof fn law_generate_idempotent(
    g0: SchemaGenerator,
    g1: SchemaGenerator,
    g2: SchemaGenerator,
    name: Seq<char>,
    s1: JsonSchema,
    s2: JsonSchema,
    r1: SchemaRef,
    r2: SchemaRef,
)
    requires
        g0.wf(),
        generated(g0, name, s1, g1, r1),
        generated(g1, name, s2, g2, r2),
    ensures
        r1->Reference_0@ == r2->Reference_0@,
        g2.definitions@ == g1.definitions@,
        has_name(g2.definitions@, name),
{
    if !has_name(g0.definitions@, name) {
        let k = g1.definitions@.len() - 1;
        assert(g1.definitions@[k].0@ == name);
    }
}

} // verus!
