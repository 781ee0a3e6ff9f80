//! Handler arguments: how an argument type describes itself as parameters or
//! a request body, and the probes that tell whether a type does.
use std::marker::PhantomData;

use vstd::prelude::*;

use crate::document::{Parameter, RequestBody};
use crate::generator::SchemaGenerator;
use crate::openapi::SchemaRef;
use crate::responses::{simple_request_body, MimeType, SimpleRequestBody};

verus! {

/// Marks a type that is expected to describe itself as a handler argument.
pub trait ShouldBeHandlerArgument {}

/// A handler argument that can describe itself by a request body or by
/// parameters.
pub trait HandlerArgument: ShouldBeHandlerArgument {
    /// The request body the argument reads, if it reads one.
    fn request_body(generator: &mut SchemaGenerator) -> Option<RequestBody>;

    /// The parameters the argument reads, on a route whose parameters are
    /// named `path`.
    fn parameters(generator: &mut SchemaGenerator, path: &Vec<String>) -> Vec<Parameter>;
}

/// JSON that is passed through without a schema.
#[derive(Debug)]
pub struct SchemalessJson<T>(pub T);

/// The schema that admits every value.
pub fn any_schema() -> (r: SchemaRef)
    ensures
        crate::convert::is_any_item(r),
{
    crate::convert::any_item()
}

impl ShouldBeHandlerArgument for String {}

impl HandlerArgument for String {
    fn request_body(generator: &mut SchemaGenerator) -> Option<RequestBody> {
        Some(simple_request_body(SimpleRequestBody { mime_type: MimeType::TextPlainUtf8, schema: None }))
    }

    fn parameters(generator: &mut SchemaGenerator, path: &Vec<String>) -> Vec<Parameter> {
        Vec::new()
    }
}

impl<T> ShouldBeHandlerArgument for SchemalessJson<T> {}

impl<T> HandlerArgument for SchemalessJson<T> {
    fn request_body(generator: &mut SchemaGenerator) -> Option<RequestBody> {
        Some(simple_request_body(SimpleRequestBody { mime_type: MimeType::ApplicationJson, schema: Some(any_schema()) }))
    }

    fn parameters(generator: &mut SchemaGenerator, path: &Vec<String>) -> Vec<Parameter> {
        Vec::new()
    }
}

/// A type that stands for "not a handler argument".
#[derive(Clone, Copy, Debug)]
pub struct NotAnArgument;

impl ShouldBeHandlerArgument for NotAnArgument {}

impl HandlerArgument for NotAnArgument {
    fn request_body(generator: &mut SchemaGenerator) -> Option<RequestBody> {
        None
    }

    fn parameters(generator: &mut SchemaGenerator, path: &Vec<String>) -> Vec<Parameter> {
        Vec::new()
    }
}

/// The answer "yes" as a type.
#[derive(Clone, Copy, Debug)]
pub struct True;

/// The answer "no" as a type.
#[derive(Clone, Copy, Debug)]
pub struct False;

/// A yes-or-no answer carried by a type.
pub trait Boolean {
    /// The answer.
    spec fn spec_value(&self) -> bool;

    /// The answer.
    fn value(&self) -> (r: bool)
        ensures
            r == self.spec_value(),
    ;
}

impl Boolean for True {
    open spec fn spec_value(&self) -> bool {
        true
    }

    fn value(&self) -> (r: bool) {
        true
    }
}

impl Boolean for False {
    open spec fn spec_value(&self) -> bool {
        false
    }

    fn value(&self) -> (r: bool) {
        false
    }
}

/// Asks of a type `T` whether it is a handler argument; the answers are the
/// methods that its bounds make available (see [`Else`] for the others).
#[derive(Debug)]
pub struct TraitProbe<T>(PhantomData<T>);

impl<T> TraitProbe<T> {
    /// A probe for `T`.
    pub fn new() -> (r: TraitProbe<T>) {
        TraitProbe(PhantomData)
    }
}

impl<T: ShouldBeHandlerArgument> TraitProbe<T> {
    /// `T` is expected to be a handler argument.
    pub fn should_be_handler_argument(&self) -> (r: bool)
        ensures
            r,
    {
        true
    }

    /// The type to ask further questions of: `T` itself.
    pub fn get_handler_argument(&self) -> (r: PhantomData<T>) {
        PhantomData
    }
}

impl<T: HandlerArgument> TraitProbe<T> {
    /// `T` is a handler argument.
    pub fn is_handler_argument(&self) -> (r: True)
        ensures
            r.spec_value(),
    {
        True
    }
}

/// The answers for a type that is not a handler argument.
#[derive(Clone, Copy, Debug)]
pub struct Else;

impl Else {
    /// The type is not expected to be a handler argument.
    pub fn should_be_handler_argument(&self) -> (r: bool)
        ensures
            !r,
    {
        false
    }

    /// The type to ask further questions of: one that reads nothing.
    pub fn get_handler_argument(&self) -> (r: PhantomData<NotAnArgument>) {
        PhantomData
    }

    /// The type is not a handler argument.
    pub fn is_handler_argument(&self) -> (r: False)
        ensures
            !r.spec_value(),
    {
        False
    }
}

} // verus!
