//! Building blocks for describing what handlers accept and return: request
//! bodies, responses, and parameters read from object schemas.
use vstd::prelude::*;
use vstd::string::StringExecFns;

use crate::context::{
    has_char, law_braced_parameter_named, law_colon_parameter_braced, openapi_path, route_names, texts,
};
use crate::convert::converted;
use crate::document::{
    Header, MediaType, Parameter, ParameterLocation, RequestBody, Response, Responses, StatusCode,
};
use crate::generator::{is_object_shape, SchemaGenerator};
use crate::openapi::{AnySchema, SchemaKind, SchemaRef};
use crate::schema::JsonSchema;

verus! {

/// Relies on `mime::TEXT_PLAIN_UTF_8`, whose text is its source string.
#[verifier::external_body]
fn text_plain_utf_8() -> (r: String)
    ensures
        r@ == "text/plain; charset=utf-8"@,
{
    mime::TEXT_PLAIN_UTF_8.to_string()
}

/// Relies on `mime::APPLICATION_OCTET_STREAM`, whose text is its source string.
#[verifier::external_body]
fn application_octet_stream() -> (r: String)
    ensures
        r@ == "application/octet-stream"@,
{
    mime::APPLICATION_OCTET_STREAM.to_string()
}

/// Relies on `mime::APPLICATION_JSON`, whose text is its source string.
#[verifier::external_body]
fn application_json() -> (r: String)
    ensures
        r@ == "application/json"@,
{
    mime::APPLICATION_JSON.to_string()
}

/// Relies on `mime::APPLICATION_WWW_FORM_URLENCODED`, whose text is its
/// source string.
#[verifier::external_body]
fn application_www_form_urlencoded() -> (r: String)
    ensures
        r@ == "application/x-www-form-urlencoded"@,
{
    mime::APPLICATION_WWW_FORM_URLENCODED.to_string()
}

/// The media types of bodies that handler arguments and results use.
#[derive(Clone, Copy, Debug, PartialEq, Eq, Structural)]
pub enum MimeType {
    TextPlainUtf8,
    ApplicationOctetStream,
    ApplicationJson,
    ApplicationWwwFormUrlencoded,
}

/// The text of a media type.
pub open spec fn mime_text(m: MimeType) -> Seq<char> {
    match m {
        MimeType::TextPlainUtf8 => "text/plain; charset=utf-8"@,
        MimeType::ApplicationOctetStream => "application/octet-stream"@,
        MimeType::ApplicationJson => "application/json"@,
        MimeType::ApplicationWwwFormUrlencoded => "application/x-www-form-urlencoded"@,
    }
}

impl MimeType {
    /// The media type's text.
    pub fn to_text(&self) -> (r: String)
        ensures
            r@ == mime_text(*self),
    {
        match self {
            MimeType::TextPlainUtf8 => text_plain_utf_8(),
            MimeType::ApplicationOctetStream => application_octet_stream(),
            MimeType::ApplicationJson => application_json(),
            MimeType::ApplicationWwwFormUrlencoded => application_www_form_urlencoded(),
        }
    }
}

/// A request body of one media type.
#[derive(Debug)]
pub struct SimpleRequestBody {
    /// The body's media type.
    pub mime_type: MimeType,
    /// The body's schema, if it has one.
    pub schema: Option<SchemaRef>,
}

/// A required request body of one media type.
pub fn simple_request_body(request_body: SimpleRequestBody) -> (r: RequestBody)
    ensures
        r.required,
        r.content@.len() == 1,
        r.content@[0].0@ == mime_text(request_body.mime_type),
        r.content@[0].1.schema == request_body.schema,
{
    let mut content: Vec<(String, MediaType)> = Vec::new();
    content.push((request_body.mime_type.to_text(), MediaType { schema: request_body.schema }));
    RequestBody { content, required: true }
}

/// A response with a body of one media type.
#[derive(Debug)]
pub struct SimpleResponse {
    /// The response's status.
    pub status_code: StatusCode,
    /// The body's media type.
    pub mime_type: MimeType,
    /// A short description of the response.
    pub description: String,
    /// The body's schema and details, if any.
    pub media_type: Option<MediaType>,
}

/// Whether `r` describes the simple response `s`.
pub open spec fn response_of(s: SimpleResponse, r: Response) -> bool {
    &&& r.description == s.description
    &&& r.headers@.len() == 0
    &&& r.content@.len() == 1
    &&& r.content@[0].0@ == mime_text(s.mime_type)
    &&& match s.media_type {
        Some(m) => r.content@[0].1 == m,
        None => r.content@[0].1.schema is None,
    }
}

/// The responses of a handler, one entry per given response, in order. In a
/// document a later entry for a status replaces an earlier one.
pub fn simple_responses(responses: Vec<SimpleResponse>) -> (r: Responses)
    ensures
        r.default is None,
        r.responses@.len() == responses@.len(),
        forall|i: int|
            0 <= i < responses@.len() ==> {
                &&& (#[trigger] r.responses@[i]).0 == responses@[i].status_code
                &&& response_of(responses@[i], r.responses@[i].1)
            },
{
    let n = responses.len();
    let ghost all = responses@;
    let mut rest = responses;
    let mut out: Vec<(StatusCode, Response)> = Vec::new();
    while rest.len() > 0
        invariant
            all.len() == n,
            out@.len() + rest@.len() == all.len(),
            rest@ == all.subrange(out@.len() as int, all.len() as int),
            forall|i: int|
                0 <= i < out@.len() ==> {
                    &&& (#[trigger] out@[i]).0 == all[i].status_code
                    &&& response_of(all[i], out@[i].1)
                },
        decreases rest@.len(),
    {
        let s = rest.remove(0);
        proof {
            assert(s == all[out@.len() as int]);
        }
        let media = match s.media_type {
            Some(m) => m,
            None => MediaType { schema: None },
        };
        let mut content: Vec<(String, MediaType)> = Vec::new();
        content.push((s.mime_type.to_text(), media));
        out.push((s.status_code, Response { description: s.description, headers: Vec::new(), content }));
        proof {
            assert(rest@ =~= all.subrange(out@.len() as int, all.len() as int));
        }
    }
    Responses { default: None, responses: out }
}

/// A `200` response with a body of media type `mime_type` and no schema.
fn ok_with(description: &str, mime_type: MimeType) -> (r: Responses)
    ensures
        r.default is None,
        r.responses@.len() == 1,
        r.responses@[0].1.headers@.len() == 0,
        r.responses@[0].0 == StatusCode::Code(200),
        r.responses@[0].1.description@ == description@,
        r.responses@[0].1.content@.len() == 1,
        r.responses@[0].1.content@[0].0@ == mime_text(mime_type),
        r.responses@[0].1.content@[0].1.schema is None,
{
    let mut v: Vec<SimpleResponse> = Vec::new();
    v.push(
        SimpleResponse {
            status_code: StatusCode::Code(200),
            mime_type,
            description: String::from_str(description),
            media_type: None,
        },
    );
    let r = simple_responses(v);
    proof {
        assert(response_of(v@[0], r.responses@[0].1));
    }
    r
}

/// The responses of a handler that returns plain text.
pub fn ok_text() -> (r: Responses)
    ensures
        r.default is None,
        r.responses@.len() == 1,
        r.responses@[0].1.headers@.len() == 0,
        r.responses@[0].0 == StatusCode::Code(200),
        r.responses@[0].1.description@ == "Some plain text"@,
        r.responses@[0].1.content@.len() == 1,
        r.responses@[0].1.content@[0].0@ == "text/plain; charset=utf-8"@,
        r.responses@[0].1.content@[0].1.schema is None,
{
    ok_with("Some plain text", MimeType::TextPlainUtf8)
}

/// The responses of a handler that returns binary data.
pub fn ok_binary() -> (r: Responses)
    ensures
        r.default is None,
        r.responses@.len() == 1,
        r.responses@[0].1.headers@.len() == 0,
        r.responses@[0].0 == StatusCode::Code(200),
        r.responses@[0].1.description@ == "Some binary data"@,
        r.responses@[0].1.content@.len() == 1,
        r.responses@[0].1.content@[0].0@ == "application/octet-stream"@,
        r.responses@[0].1.content@[0].1.schema is None,
{
    ok_with("Some binary data", MimeType::ApplicationOctetStream)
}

/// The responses of a handler that returns an empty body.
pub fn ok_empty() -> (r: Responses)
    ensures
        r.default is None,
        r.responses@.len() == 1,
        r.responses@[0].1.headers@.len() == 0,
        r.responses@[0].0 == StatusCode::Code(200),
        r.responses@[0].1.description@ == "Empty body"@,
        r.responses@[0].1.content@.len() == 0,
{
    let mut out: Vec<(StatusCode, Response)> = Vec::new();
    out.push(
        (
            StatusCode::Code(200),
            Response { description: String::from_str("Empty body"), headers: Vec::new(), content: Vec::new() },
        ),
    );
    Responses { default: None, responses: out }
}

/// The responses of a handler that redirects: any `3XX`, with the target in
/// a `Location` header of schema `location`.
pub fn redirect_responses(location: SchemaRef) -> (r: Responses)
    ensures
        r.default is None,
        r.responses@.len() == 1,
        r.responses@[0].0 == StatusCode::Range(3),
        r.responses@[0].1.description@ == "A generic http redirect"@,
        r.responses@[0].1.content@.len() == 0,
        r.responses@[0].1.headers@.len() == 1,
        r.responses@[0].1.headers@[0].0@ == "Location"@,
        r.responses@[0].1.headers@[0].1 == (Header { required: false, schema: location }),
{
    let mut headers: Vec<(String, Header)> = Vec::new();
    headers.push((String::from_str("Location"), Header { required: false, schema: location }));
    let mut out: Vec<(StatusCode, Response)> = Vec::new();
    out.push(
        (
            StatusCode::Range(3),
            Response { description: String::from_str("A generic http redirect"), headers, content: Vec::new() },
        ),
    );
    Responses { default: None, responses: out }
}

/// The responses of a handler that fails with an error of any status.
pub fn error_responses() -> (r: Responses)
    ensures
        r.responses@.len() == 0,
        r.default is Some,
        r.default->0.description@ == "Some error"@,
        r.default->0.headers@.len() == 0,
        r.default->0.content@.len() == 0,
{
    Responses {
        default: Some(Response { description: String::from_str("Some error"), headers: Vec::new(), content: Vec::new() }),
        responses: Vec::new(),
    }
}

/// The responses of a handler that returns a file to download.
pub fn file_responses() -> (r: Responses)
    ensures
        r.default is None,
        r.responses@.len() == 1,
        r.responses@[0].0 == StatusCode::Code(200),
        r.responses@[0].1.description@ == "A downloadable file"@,
        r.responses@[0].1.headers@.len() == 0,
        r.responses@[0].1.content@.len() == 0,
{
    let mut out: Vec<(StatusCode, Response)> = Vec::new();
    out.push(
        (
            StatusCode::Code(200),
            Response { description: String::from_str("A downloadable file"), headers: Vec::new(), content: Vec::new() },
        ),
    );
    Responses { default: None, responses: out }
}

/// The responses of a handler that may succeed or fail: those of the success
/// first, then those of the error, so that for a status both describe the
/// error's entry stands; the success's default wins over the error's.
pub fn merge_responses(ok: Responses, err: Responses) -> (r: Responses)
    ensures
        r.responses@ == ok.responses@ + err.responses@,
        r.default == if ok.default is Some {
            ok.default
        } else {
            err.default
        },
{
    let Responses { default: ok_default, responses: mut all } = ok;
    let Responses { default: err_default, responses: mut err_responses } = err;
    all.append(&mut err_responses);
    let default = match ok_default {
        Some(d) => Some(d),
        None => err_default,
    };
    Responses { default, responses: all }
}

/// The responses of a handler that returns JSON described by `schema`.
pub fn ok_json(schema: SchemaRef) -> (r: Responses)
    ensures
        r.default is None,
        r.responses@.len() == 1,
        r.responses@[0].1.headers@.len() == 0,
        r.responses@[0].0 == StatusCode::Code(200),
        r.responses@[0].1.description@.len() == 0,
        r.responses@[0].1.content@.len() == 1,
        r.responses@[0].1.content@[0].0@ == "application/json"@,
        r.responses@[0].1.content@[0].1.schema == Some(schema),
{
    let mut v: Vec<SimpleResponse> = Vec::new();
    v.push(
        SimpleResponse {
            status_code: StatusCode::Code(200),
            mime_type: MimeType::ApplicationJson,
            description: String::new(),
            media_type: Some(MediaType { schema: Some(schema) }),
        },
    );
    let r = simple_responses(v);
    proof {
        assert(response_of(v@[0], r.responses@[0].1));
    }
    r
}

/// Whether `out` is the parameter read from the property `p` of an object
/// schema whose required properties are `required`.
pub open spec fn param_of(
    location: ParameterLocation,
    required: Seq<String>,
    p: (String, SchemaRef),
    out: Parameter,
) -> bool {
    &&& out.location == location
    &&& out.name == p.0
    &&& out.schema == p.1
    &&& out.required == texts(required).contains(p.0@)
}

/// Whether `c` converted is an inline object schema with no other keyword.
pub open spec fn is_object_item(c: SchemaRef) -> bool {
    &&& c is Item
    &&& c->Item_0.schema_kind is Any
    &&& is_object_shape(c->Item_0.schema_kind->Any_0)
}

/// Whether `ps` are the parameters read from the object schema `c`: one per
/// property, in order (none if `c` is not an object schema).
pub open spec fn object_params_of(location: ParameterLocation, c: SchemaRef, ps: Seq<Parameter>) -> bool {
    if is_object_item(c) {
        let a = c->Item_0.schema_kind->Any_0;
        &&& ps.len() == a.properties@.len()
        &&& forall|i: int|
            0 <= i < ps.len() ==> #[trigger] param_of(location, a.required@, a.properties@[i], ps[i])
    } else {
        ps.len() == 0
    }
}

/// Whether `ps` are the path parameters read from the converted schema `c`
/// of a handler argument, for a route whose parameters are named `names`: an
/// object gives one per property; any other inline schema gives one, named
/// after the route's only parameter; else none.
pub open spec fn path_params_of(c: SchemaRef, names: Seq<String>, ps: Seq<Parameter>) -> bool {
    if is_object_item(c) {
        object_params_of(ParameterLocation::Path, c, ps)
    } else if c is Item && names.len() == 1 {
        &&& ps.len() == 1
        &&& ps[0].location == ParameterLocation::Path
        &&& ps[0].name@ == names[0]@
        &&& ps[0].required == !c->Item_0.schema_data.nullable
        &&& ps[0].schema == c
    } else {
        ps.len() == 0
    }
}

/// Splits an inline object schema off; any other schema comes back as is.
fn take_object(c: SchemaRef) -> (r: Result<AnySchema, SchemaRef>)
    ensures
        match r {
            Ok(a) => is_object_item(c) && a == c->Item_0.schema_kind->Any_0,
            Err(d) => !is_object_item(c) && d == c,
        },
{
    match c {
        SchemaRef::Item(s) => {
            let s = *s;
            match s.schema_kind {
                SchemaKind::Any(a) => {
                    if crate::generator::object_shape(&a) {
                        Ok(a)
                    } else {
                        Err(SchemaRef::Item(Box::new(crate::openapi::Schema { schema_data: s.schema_data, schema_kind: SchemaKind::Any(a) })))
                    }
                },
                other => Err(SchemaRef::Item(Box::new(crate::openapi::Schema { schema_data: s.schema_data, schema_kind: other }))),
            }
        },
        other => Err(other),
    }
}

/// One parameter per property of an object schema, in order.
pub fn object_parameters(location: ParameterLocation, object: AnySchema) -> (r: Vec<Parameter>)
    ensures
        r@.len() == object.properties@.len(),
        forall|i: int|
            0 <= i < r@.len() ==> #[trigger] param_of(location, object.required@, object.properties@[i], r@[i]),
{
    let AnySchema { properties, required, .. } = object;
    let n = properties.len();
    let ghost all = properties@;
    let mut rest = properties;
    let mut out: Vec<Parameter> = Vec::new();
    while rest.len() > 0
        invariant
            all.len() == n,
            out@.len() + rest@.len() == all.len(),
            rest@ == all.subrange(out@.len() as int, all.len() as int),
            forall|i: int| 0 <= i < out@.len() ==> #[trigger] param_of(location, required@, all[i], out@[i]),
        decreases rest@.len(),
    {
        let (name, schema) = rest.remove(0);
        proof {
            assert((name, schema) == all[out@.len() as int]);
        }
        let is_required = contains_text(&required, &name);
        out.push(Parameter { location, name, required: is_required, schema });
        proof {
            assert(rest@ =~= all.subrange(out@.len() as int, all.len() as int));
        }
    }
    out
}

/// Whether some string of `v` has the text of `t`.
fn contains_text(v: &Vec<String>, t: &String) -> (r: bool)
    ensures
        r == texts(v@).contains(t@),
{
    let mut i: usize = 0;
    while i < v.len()
        invariant
            i <= v@.len(),
            forall|k: int| 0 <= k < i ==> #[trigger] v@[k]@ != t@,
        decreases v@.len() - i,
    {
        if v[i] == *t {
            proof {
                assert(texts(v@)[i as int] == t@);
            }
            return true;
        }
        i = i + 1;
    }
    proof {
        assert forall|k: int| 0 <= k < texts(v@).len() implies texts(v@)[k] != t@ by {
            assert(texts(v@)[k] == v@[k]@);
        }
    }
    false
}

/// The query parameters of a handler argument whose type has the schema
/// `schema`: one per property if it is an object schema, else none.
pub fn query_parameters(generator: &SchemaGenerator, schema: &JsonSchema) -> (r: Vec<Parameter>)
    ensures
        exists|c: SchemaRef| converted(*schema, c) && object_params_of(ParameterLocation::Query, c, r@),
{
    let c = generator.generate_inline(schema);
    let ghost g = c;
    let r = match take_object(c) {
        Ok(a) => object_parameters(ParameterLocation::Query, a),
        Err(_) => Vec::new(),
    };
    proof {
        assert(converted(*schema, g) && object_params_of(ParameterLocation::Query, g, r@));
    }
    r
}

/// The path parameters of a handler argument whose type has the schema
/// `schema`, on a route whose parameters are named `path`.
pub fn path_parameters(generator: &SchemaGenerator, schema: &JsonSchema, path: &Vec<String>) -> (r: Vec<Parameter>)
    ensures
        exists|c: SchemaRef| converted(*schema, c) && path_params_of(c, path@, r@),
{
    let c = generator.generate_inline(schema);
    let ghost g = c;
    let r = match take_object(c) {
        Ok(a) => object_parameters(ParameterLocation::Path, a),
        Err(d) => {
            if path.len() == 1 {
                match d {
                    SchemaRef::Item(s) => {
                        let required = !s.schema_data.nullable;
                        let mut out: Vec<Parameter> = Vec::new();
                        out.push(
                            Parameter {
                                location: ParameterLocation::Path,
                                name: path[0].clone(),
                                required,
                                schema: SchemaRef::Item(s),
                            },
                        );
                        out
                    },
                    SchemaRef::Reference(_) => Vec::new(),
                }
            } else {
                Vec::new()
            }
        },
    };
    proof {
        assert(converted(*schema, g) && path_params_of(g, path@, r@));
    }
    r
}


/// A route written `a:n b` in the host framework's syntax, `:n` its only
/// parameter and a whole segment, is keyed `a{n}b` in a document, and the path
/// parameter read for it from an inline schema that is not an object is
/// named `n`, as in the braces of the key.
pub proof fn law_path_parameter_named_as_key(
    a: Seq<char>,
    n: Seq<char>,
    b: Seq<char>,
    names: Seq<String>,
    c: SchemaRef,
    ps: Seq<Parameter>,
)
    requires
        !has_char(a, ':') && !has_char(a, '}'),
        a.len() == 0 || a.last() == '/',
        !has_char(n, '/'),
        !has_char(b, ':') && !has_char(b, '}'),
        b.len() == 0 || b[0] == '/',
        texts(names) == route_names(openapi_path(a + seq![':'] + n + b)),
        c is Item && !is_object_item(c),
        path_params_of(c, names, ps),
    ensures
        openapi_path(a + seq![':'] + n + b) == a + seq!['{'] + n + seq!['}'] + b,
        ps.len() == 1,
        ps[0].name@ == n,
{
    law_colon_parameter_braced(a, n, b);
    law_braced_parameter_named(a, n, b);
    assert(texts(names).len() == 1 && texts(names)[0] == n);
    assert(texts(names)[0] == names[0]@);
}
} // verus!
