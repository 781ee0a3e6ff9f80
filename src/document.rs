//! The parts of an OpenAPI document that handlers contribute: operations,
//! parameters, bodies and responses, and the document itself.
use std::sync::Arc;

use vstd::prelude::*;

use crate::method::HttpMethod;
use crate::openapi::SchemaRef;

verus! {

/// Where a parameter is read from.
#[derive(Clone, Copy, Debug, PartialEq, Eq, Structural)]
pub enum ParameterLocation {
    Path,
    Query,
}

/// One parameter of an operation.
#[derive(Debug)]
pub struct Parameter {
    pub location: ParameterLocation,
    pub name: String,
    pub required: bool,
    pub schema: SchemaRef,
}

/// A body's schema for one media type.
#[derive(Debug)]
pub struct MediaType {
    pub schema: Option<SchemaRef>,
}

/// The body an operation expects, by media type.
#[derive(Debug)]
pub struct RequestBody {
    pub content: Vec<(String, MediaType)>,
    pub required: bool,
}

/// The status a response is given for: one code, or a class (`3` for `3XX`).
#[derive(Clone, Copy, Debug, PartialEq, Eq, Structural)]
pub enum StatusCode {
    Code(u16),
    Range(u16),
}

/// A header of a response.
#[derive(Debug)]
pub struct Header {
    pub required: bool,
    pub schema: SchemaRef,
}

/// One response of an operation.
#[derive(Debug)]
pub struct Response {
    pub description: String,
    pub headers: Vec<(String, Header)>,
    pub content: Vec<(String, MediaType)>,
}

/// The responses of an operation, by status; in a document a later entry for
/// a status replaces an earlier one.
#[derive(Debug)]
pub struct Responses {
    /// The response for any status not listed.
    pub default: Option<Response>,
    pub responses: Vec<(StatusCode, Response)>,
}

/// What one handler contributes to a document.
#[derive(Debug)]
pub struct Operation {
    pub summary: Option<String>,
    pub description: Option<String>,
    pub operation_id: Option<String>,
    pub parameters: Vec<Parameter>,
    pub request_body: Option<RequestBody>,
    pub responses: Responses,
    pub deprecated: bool,
    pub tags: Vec<String>,
}

/// The operations of one path, one slot per method.
#[derive(Debug)]
pub struct PathItem {
    pub get: Option<Arc<Operation>>,
    pub post: Option<Arc<Operation>>,
    pub put: Option<Arc<Operation>>,
    pub delete: Option<Arc<Operation>>,
    pub head: Option<Arc<Operation>>,
    pub options: Option<Arc<Operation>>,
    pub patch: Option<Arc<Operation>>,
    pub trace: Option<Arc<Operation>>,
}

/// The operation a path item holds for a method.
pub open spec fn slot(item: PathItem, m: HttpMethod) -> Option<Arc<Operation>> {
    match m {
        HttpMethod::Get => item.get,
        HttpMethod::Post => item.post,
        HttpMethod::Put => item.put,
        HttpMethod::Delete => item.delete,
        HttpMethod::Head => item.head,
        HttpMethod::Options => item.options,
        HttpMethod::Patch => item.patch,
        HttpMethod::Trace => item.trace,
    }
}

impl PathItem {
    /// A path item with no operation.
    pub fn empty() -> (r: PathItem)
        ensures
            forall|m: HttpMethod| #[trigger] slot(r, m) is None,
    {
        PathItem {
            get: None,
            post: None,
            put: None,
            delete: None,
            head: None,
            options: None,
            patch: None,
            trace: None,
        }
    }

    /// Puts `op` in the slot of `m`, replacing what was there.
    pub fn set(&mut self, m: HttpMethod, op: Arc<Operation>)
        ensures
            slot(*final(self), m) == Some(op),
            forall|n: HttpMethod| n != m ==> #[trigger] slot(*final(self), n) == slot(*old(self), n),
    {
        match m {
            HttpMethod::Get => self.get = Some(op),
            HttpMethod::Post => self.post = Some(op),
            HttpMethod::Put => self.put = Some(op),
            HttpMethod::Delete => self.delete = Some(op),
            HttpMethod::Head => self.head = Some(op),
            HttpMethod::Options => self.options = Some(op),
            HttpMethod::Patch => self.patch = Some(op),
            HttpMethod::Trace => self.trace = Some(op),
        }
    }

    /// The operation for `m`, if any.
    pub fn operation(&self, m: HttpMethod) -> (r: Option<&Arc<Operation>>)
        ensures
            match r {
                Some(op) => slot(*self, m) == Some(*op),
                None => slot(*self, m) is None,
            },
    {
        match m {
            HttpMethod::Get => self.get.as_ref(),
            HttpMethod::Post => self.post.as_ref(),
            HttpMethod::Put => self.put.as_ref(),
            HttpMethod::Delete => self.delete.as_ref(),
            HttpMethod::Head => self.head.as_ref(),
            HttpMethod::Options => self.options.as_ref(),
            HttpMethod::Patch => self.patch.as_ref(),
            HttpMethod::Trace => self.trace.as_ref(),
        }
    }

    /// A path item that shares every operation of `self`.
    pub fn share(&self) -> (r: PathItem)
        ensures
            r == *self,
    {
        PathItem {
            get: share_opt(&self.get),
            post: share_opt(&self.post),
            put: share_opt(&self.put),
            delete: share_opt(&self.delete),
            head: share_opt(&self.head),
            options: share_opt(&self.options),
            patch: share_opt(&self.patch),
            trace: share_opt(&self.trace),
        }
    }
}

/// Relies on `Arc::clone`: the clone points to the same value.
#[verifier::external_body]
pub(crate) fn share<T>(a: &Arc<T>) -> (r: Arc<T>)
    ensures
        r == *a,
{
    Arc::clone(a)
}

fn share_opt(a: &Option<Arc<Operation>>) -> (r: Option<Arc<Operation>>)
    ensures
        r == *a,
{
    match a {
        Some(x) => Some(share(x)),
        None => None,
    }
}

/// Who to contact about an API.
#[derive(Debug)]
pub struct Contact {
    pub name: Option<String>,
    pub url: Option<String>,
    pub email: Option<String>,
}

/// The license of an API.
#[derive(Debug)]
pub struct License {
    pub name: String,
    pub url: Option<String>,
}

/// What a document says about its API.
#[derive(Debug)]
pub struct Info {
    pub title: String,
    pub description: Option<String>,
    pub terms_of_service: Option<String>,
    pub contact: Option<Contact>,
    pub license: Option<License>,
    pub version: String,
}

/// An OpenAPI 3.0 document.
#[derive(Debug)]
pub struct OpenApi {
    pub openapi: String,
    pub info: Info,
    /// Path templates with their operations.
    pub paths: Vec<(String, PathItem)>,
    /// The named schemas that `$ref`s point to.
    pub schemas: Vec<(String, SchemaRef)>,
}

} // verus!
