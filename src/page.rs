//! Pages: OpenAPI documents that handlers are added to, built on demand and
//! cached until the next change.
use std::sync::Arc;

use vstd::prelude::*;
use vstd::string::StringExecFns;

use crate::convert::{convert_properties, lemma_props_converted_names, props_converted};
use crate::document::{
    share, slot, Contact, Info, License, OpenApi, Operation, Parameter, PathItem, RequestBody, Responses,
};
use crate::generator::{generated, has_name, ref_path, SchemaGenerator};
use crate::json::{copy_opt_string, copy_strings};
use crate::method::HttpMethod;
use crate::openapi::SchemaRef;
use crate::ptrset::PtrSet;
use crate::schema::JsonSchema;

verus! {

/// What a handler is: its route and its documentation.
#[derive(Debug)]
pub struct SwaggapiHandler {
    /// The method the handler handles.
    pub method: HttpMethod,
    /// The handler's path, in the host framework's syntax.
    pub path: String,
    /// Whether the handler is marked deprecated.
    pub deprecated: bool,
    /// The lines of the handler's documentation.
    pub doc: Vec<String>,
    /// The handler's name.
    pub ident: String,
    /// The handler's own tags.
    pub tags: Vec<String>,
}

/// A handler as a context hands it to pages: with its full path, its tags and
/// the pages it belongs to.
#[derive(Debug)]
pub struct ContextHandler {
    pub handler: SwaggapiHandler,
    pub path: String,
    pub tags: Vec<String>,
    pub pages: PtrSet,
}

/// What one argument of a handler contributes: parameters, and maybe a body.
#[derive(Debug)]
pub struct ArgumentSchemas {
    pub parameters: Vec<Parameter>,
    pub request_body: Option<RequestBody>,
}

/// Names what `str::trim` returns: the text without leading and trailing
/// whitespace.
pub uninterp spec fn trim_of(s: Seq<char>) -> Seq<char>;

/// Relies on `str::trim`: the result depends on the characters alone.
#[verifier::external_body]
fn trim(s: &str) -> (r: String)
    ensures
        r@ == trim_of(s@),
{
    s.trim().to_string()
}

/// Lines trimmed and joined by line breaks.
pub open spec fn joined_doc(lines: Seq<String>) -> Seq<char>
    decreases lines.len(),
{
    if lines.len() == 0 {
        Seq::empty()
    } else if lines.len() == 1 {
        trim_of(lines[0]@)
    } else {
        joined_doc(lines.drop_last()) + seq!['\n'] + trim_of(lines.last()@)
    }
}

/// The parameters of all arguments, in order.
pub open spec fn all_parameters(args: Seq<ArgumentSchemas>) -> Seq<Parameter>
    decreases args.len(),
{
    if args.len() == 0 {
        Seq::empty()
    } else {
        all_parameters(args.drop_last()) + args.last().parameters@
    }
}

/// The body of the last argument that has one.
pub open spec fn last_body(args: Seq<ArgumentSchemas>) -> Option<RequestBody>
    decreases args.len(),
{
    if args.len() == 0 {
        None
    } else if args.last().request_body is Some {
        args.last().request_body
    } else {
        last_body(args.drop_last())
    }
}

/// Whether `op` is the operation of handler `h` whose arguments contributed
/// `args` and whose result is described by `responses`: the summary is the
/// first documentation line, the description the lines after it, and of
/// several bodies the last one is kept.
pub open spec fn operation_of(
    h: ContextHandler,
    args: Seq<ArgumentSchemas>,
    responses: Responses,
    op: Operation,
) -> bool {
    &&& text_is(op.summary, summary_of(h.handler.doc@))
    &&& text_is(op.description, description_of(h.handler.doc@))
    &&& op.operation_id is Some
    &&& op.operation_id->0@ == h.handler.ident@
    &&& op.parameters@ == all_parameters(args)
    &&& op.request_body == last_body(args)
    &&& op.responses == responses
    &&& op.deprecated == h.handler.deprecated
    &&& op.tags@ == h.tags@
}

/// Whether some entry of `paths` has the template `key`.
pub open spec fn has_path(paths: Seq<(String, PathItem)>, key: Seq<char>) -> bool {
    exists|i: int| 0 <= i < paths.len() && #[trigger] paths[i].0@ == key
}

/// Templates are unique.
pub open spec fn unique_paths(paths: Seq<(String, PathItem)>) -> bool {
    forall|i: int, j: int|
        0 <= i < j < paths.len() ==> #[trigger] paths[i].0@ != #[trigger] paths[j].0@
}

/// The configuration of a page: what its document says about the API, and the
/// file it is served as.
#[derive(Debug)]
pub struct SwaggapiPageBuilder {
    pub title: Option<String>,
    pub description: Option<String>,
    pub terms_of_service: Option<String>,
    pub contact_name: Option<String>,
    pub contact_url: Option<String>,
    pub contact_email: Option<String>,
    pub license_name: Option<String>,
    pub license_url: Option<String>,
    pub version: Option<String>,
    pub filename: Option<String>,
}

/// The text of an optional string, or `fallback`.
pub open spec fn text_or(s: Option<String>, fallback: Seq<char>) -> Seq<char> {
    match s {
        Some(t) => t@,
        None => fallback,
    }
}

/// The info block a page's configuration gives.
pub open spec fn info_of(meta: SwaggapiPageBuilder, info: Info) -> bool {
    &&& info.title@ == text_or(meta.title, "Unnamed API"@)
    &&& info.description == meta.description
    &&& info.terms_of_service == meta.terms_of_service
    &&& if meta.contact_name is Some || meta.contact_url is Some || meta.contact_email is Some {
        info.contact == Some(
            Contact { name: meta.contact_name, url: meta.contact_url, email: meta.contact_email },
        )
    } else {
        info.contact is None
    }
    &&& if meta.license_name is Some || meta.license_url is Some {
        &&& info.license is Some
        &&& info.license->0.name@ == text_or(meta.license_name, "Unnamed License"@)
        &&& info.license->0.url == meta.license_url
    } else {
        info.license is None
    }
    &&& info.version@ == text_or(meta.version, "v0.0.0"@)
}

/// The accumulated state of a page: its configuration, its path table, its
/// named schemas and the cached document.
#[derive(Debug)]
pub struct SwaggapiPageBuilderImpl {
    pub meta: SwaggapiPageBuilder,
    pub paths: Vec<(String, PathItem)>,
    pub generator: SchemaGenerator,
    pub last_build: Option<Arc<OpenApi>>,
}

/// Whether `doc` is the document of page state `s`.
pub open spec fn document_of(s: SwaggapiPageBuilderImpl, doc: OpenApi) -> bool {
    &&& doc.openapi@ == "3.0.0"@
    &&& info_of(s.meta, doc.info)
    &&& doc.paths@ == s.paths@
    &&& props_converted(s.generator.definitions@, doc.schemas@)
}

/// What [`SwaggapiPageBuilderImpl::build`] does: it returns the document of
/// the page, the cached one if there is one, else a new one that is then
/// cached.
pub open spec fn built(old: SwaggapiPageBuilderImpl, new: SwaggapiPageBuilderImpl, r: Arc<OpenApi>) -> bool {
    &&& document_of(old, *r)
    &&& match old.last_build {
        Some(cached) => r == cached && new == old,
        None => {
            &&& new.meta == old.meta
            &&& new.paths == old.paths
            &&& new.generator == old.generator
            &&& new.last_build == Some(r)
        },
    }
}

/// What [`SwaggapiPageBuilderImpl::add_handler`] does: the handler's
/// operation takes the slot of its method under its path (the path is added
/// if new), nothing else in the table changes, and the cache is dropped.
pub open spec fn handler_added(
    old: SwaggapiPageBuilderImpl,
    h: ContextHandler,
    args: Seq<ArgumentSchemas>,
    responses: Responses,
    new: SwaggapiPageBuilderImpl,
) -> bool {
    let key = h.path@;
    let m = h.handler.method;
    &&& new.meta == old.meta
    &&& new.generator == old.generator
    &&& new.last_build is None
    &&& new.paths@.len() == old.paths@.len() + if has_path(old.paths@, key) {
        0int
    } else {
        1int
    }
    &&& forall|i: int|
        0 <= i < old.paths@.len() && old.paths@[i].0@ != key ==> #[trigger] new.paths@[i]
            == old.paths@[i]
    &&& exists|i: int|
        0 <= i < new.paths@.len() && #[trigger] new.paths@[i].0@ == key && {
            let item = new.paths@[i].1;
            &&& slot(item, m) is Some
            &&& operation_of(h, args, responses, *slot(item, m)->0)
            &&& forall|n: HttpMethod|
                n != m ==> #[trigger] slot(item, n) == if i < old.paths@.len() {
                    slot(old.paths@[i].1, n)
                } else {
                    None
                }
        }
}

impl SwaggapiPageBuilder {
    /// A page with nothing configured.
    pub fn new() -> (r: SwaggapiPageBuilder)
        ensures
            r.title is None && r.description is None && r.terms_of_service is None,
            r.contact_name is None && r.contact_url is None && r.contact_email is None,
            r.license_name is None && r.license_url is None,
            r.version is None && r.filename is None,
    {
        SwaggapiPageBuilder {
            title: None,
            description: None,
            terms_of_service: None,
            contact_name: None,
            contact_url: None,
            contact_email: None,
            license_name: None,
            license_url: None,
            version: None,
            filename: None,
        }
    }

    /// The title of the API.
    pub fn title(self, title: &str) -> (r: SwaggapiPageBuilder)
        ensures
            r.title is Some,
            r.title->0@ == title@,
            r.description == self.description,
            r.terms_of_service == self.terms_of_service,
            r.contact_name == self.contact_name,
            r.contact_url == self.contact_url,
            r.contact_email == self.contact_email,
            r.license_name == self.license_name,
            r.license_url == self.license_url,
            r.version == self.version,
            r.filename == self.filename,
    {
        let mut r = self;
        r.title = Some(String::from_str(title));
        r
    }

    /// A short description of the API.
    pub fn description(self, description: &str) -> (r: SwaggapiPageBuilder)
        ensures
            r.description is Some,
            r.description->0@ == description@,
            r.title == self.title,
            r.terms_of_service == self.terms_of_service,
            r.contact_name == self.contact_name,
            r.contact_url == self.contact_url,
            r.contact_email == self.contact_email,
            r.license_name == self.license_name,
            r.license_url == self.license_url,
            r.version == self.version,
            r.filename == self.filename,
    {
        let mut r = self;
        r.description = Some(String::from_str(description));
        r
    }

    /// A URL to the terms of service of the API.
    pub fn terms_of_service(self, terms_of_service: &str) -> (r: SwaggapiPageBuilder)
        ensures
            r.terms_of_service is Some,
            r.terms_of_service->0@ == terms_of_service@,
            r.title == self.title,
            r.description == self.description,
            r.contact_name == self.contact_name,
            r.contact_url == self.contact_url,
            r.contact_email == self.contact_email,
            r.license_name == self.license_name,
            r.license_url == self.license_url,
            r.version == self.version,
            r.filename == self.filename,
    {
        let mut r = self;
        r.terms_of_service = Some(String::from_str(terms_of_service));
        r
    }

    /// The name of the person or organisation to contact about the API.
    pub fn contact_name(self, contact_name: &str) -> (r: SwaggapiPageBuilder)
        ensures
            r.contact_name is Some,
            r.contact_name->0@ == contact_name@,
            r.title == self.title,
            r.description == self.description,
            r.terms_of_service == self.terms_of_service,
            r.contact_url == self.contact_url,
            r.contact_email == self.contact_email,
            r.license_name == self.license_name,
            r.license_url == self.license_url,
            r.version == self.version,
            r.filename == self.filename,
    {
        let mut r = self;
        r.contact_name = Some(String::from_str(contact_name));
        r
    }

    /// A URL with contact information for the API.
    pub fn contact_url(self, contact_url: &str) -> (r: SwaggapiPageBuilder)
        ensures
            r.contact_url is Some,
            r.contact_url->0@ == contact_url@,
            r.title == self.title,
            r.description == self.description,
            r.terms_of_service == self.terms_of_service,
            r.contact_name == self.contact_name,
            r.contact_email == self.contact_email,
            r.license_name == self.license_name,
            r.license_url == self.license_url,
            r.version == self.version,
            r.filename == self.filename,
    {
        let mut r = self;
        r.contact_url = Some(String::from_str(contact_url));
        r
    }

    /// The email address to contact about the API.
    pub fn contact_email(self, contact_email: &str) -> (r: SwaggapiPageBuilder)
        ensures
            r.contact_email is Some,
            r.contact_email->0@ == contact_email@,
            r.title == self.title,
            r.description == self.description,
            r.terms_of_service == self.terms_of_service,
            r.contact_name == self.contact_name,
            r.contact_url == self.contact_url,
            r.license_name == self.license_name,
            r.license_url == self.license_url,
            r.version == self.version,
            r.filename == self.filename,
    {
        let mut r = self;
        r.contact_email = Some(String::from_str(contact_email));
        r
    }

    /// The name of the license of the API.
    pub fn license_name(self, license_name: &str) -> (r: SwaggapiPageBuilder)
        ensures
            r.license_name is Some,
            r.license_name->0@ == license_name@,
            r.title == self.title,
            r.description == self.description,
            r.terms_of_service == self.terms_of_service,
            r.contact_name == self.contact_name,
            r.contact_url == self.contact_url,
            r.contact_email == self.contact_email,
            r.license_url == self.license_url,
            r.version == self.version,
            r.filename == self.filename,
    {
        let mut r = self;
        r.license_name = Some(String::from_str(license_name));
        r
    }

    /// A URL to the license of the API; set its name as well.
    pub fn license_url(self, license_url: &str) -> (r: SwaggapiPageBuilder)
        ensures
            r.license_url is Some,
            r.license_url->0@ == license_url@,
            r.title == self.title,
            r.description == self.description,
            r.terms_of_service == self.terms_of_service,
            r.contact_name == self.contact_name,
            r.contact_url == self.contact_url,
            r.contact_email == self.contact_email,
            r.license_name == self.license_name,
            r.version == self.version,
            r.filename == self.filename,
    {
        let mut r = self;
        r.license_url = Some(String::from_str(license_url));
        r
    }

    /// The version of the API.
    pub fn version(self, version: &str) -> (r: SwaggapiPageBuilder)
        ensures
            r.version is Some,
            r.version->0@ == version@,
            r.title == self.title,
            r.description == self.description,
            r.terms_of_service == self.terms_of_service,
            r.contact_name == self.contact_name,
            r.contact_url == self.contact_url,
            r.contact_email == self.contact_email,
            r.license_name == self.license_name,
            r.license_url == self.license_url,
            r.filename == self.filename,
    {
        let mut r = self;
        r.version = Some(String::from_str(version));
        r
    }

    /// The file name the page is served as.
    pub fn filename(self, filename: &str) -> (r: SwaggapiPageBuilder)
        ensures
            r.filename is Some,
            r.filename->0@ == filename@,
            r.title == self.title,
            r.description == self.description,
            r.terms_of_service == self.terms_of_service,
            r.contact_name == self.contact_name,
            r.contact_url == self.contact_url,
            r.contact_email == self.contact_email,
            r.license_name == self.license_name,
            r.license_url == self.license_url,
            r.version == self.version,
    {
        let mut r = self;
        r.filename = Some(String::from_str(filename));
        r
    }
}

impl SwaggapiPageBuilderImpl {
    /// Templates are unique, the named schemas are well formed, and a cached
    /// document is the document of the page as it stands.
    pub open spec fn wf(&self) -> bool {
        &&& unique_paths(self.paths@)
        &&& self.generator.wf()
        &&& self.last_build is Some ==> document_of(*self, *self.last_build->0)
    }

    /// A page with configuration `meta`, no handler and no schema.
    pub fn new(meta: SwaggapiPageBuilder) -> (r: SwaggapiPageBuilderImpl)
        ensures
            r.wf(),
            r.meta == meta,
            r.paths@.len() == 0,
            r.generator.definitions@.len() == 0,
            r.last_build is None,
    {
        SwaggapiPageBuilderImpl { meta, paths: Vec::new(), generator: SchemaGenerator::new(), last_build: None }
    }

    /// Lends the named schemas out, so that a handler's schemas can be
    /// generated against them; the cache is dropped.
    pub fn take_generator(&mut self) -> (g: SchemaGenerator)
        requires
            old(self).wf(),
        ensures
            g == old(self).generator,
            final(self).wf(),
            final(self).meta == old(self).meta,
            final(self).paths == old(self).paths,
            final(self).generator.definitions@.len() == 0,
            final(self).last_build is None,
    {
        self.last_build = None;
        let mut g = SchemaGenerator::new();
        std::mem::swap(&mut self.generator, &mut g);
        g
    }

    /// Takes the named schemas back; the cache is dropped.
    pub fn restore_generator(&mut self, g: SchemaGenerator)
        requires
            old(self).wf(),
            g.wf(),
        ensures
            final(self).wf(),
            final(self).meta == old(self).meta,
            final(self).paths == old(self).paths,
            final(self).generator == g,
            final(self).last_build is None,
    {
        self.last_build = None;
        self.generator = g;
    }

    /// Adds a handler's operation to the page, replacing the operation that
    /// stood under the same path and method.
    pub fn add_handler(&mut self, handler: &ContextHandler, arguments: Vec<ArgumentSchemas>, responses: Responses)
        requires
            old(self).wf(),
        ensures
            final(self).wf(),
            handler_added(*old(self), *handler, arguments@, responses, *final(self)),
    {
        self.last_build = None;
        let ghost args = arguments@;
        let op = build_operation(handler, arguments, responses);
        let op = Arc::new(op);
        let key = &handler.path;
        let m = handler.handler.method;
        let ghost before = self.paths@;
        if let Some(i) = find_path(&self.paths, key) {
            let mut item = self.paths[i].1.share();
            item.set(m, op);
            let name = self.paths[i].0.clone();
            self.paths.set(i, (name, item));
            proof {
                assert(before[i as int].0@ == key@);
                assert(has_path(before, key@));
                assert forall|a: int, b: int| 0 <= a < b < self.paths@.len() implies #[trigger] self.paths@[a].0@
                    != #[trigger] self.paths@[b].0@ by {
                    assert(before[a].0@ == self.paths@[a].0@ && before[b].0@ == self.paths@[b].0@);
                }
                assert(self.paths@[i as int].0@ == key@);
            }
        } else {
            let i = self.paths.len();
            let mut item = PathItem::empty();
            item.set(m, op);
            self.paths.push((key.clone(), item));
            proof {
                assert(!has_path(before, key@));
                assert forall|a: int, b: int| 0 <= a < b < self.paths@.len() implies #[trigger] self.paths@[a].0@
                    != #[trigger] self.paths@[b].0@ by {
                    if b == before.len() {
                        assert(before[a].0@ != key@);
                    } else {
                        assert(before[a] == self.paths@[a] && before[b] == self.paths@[b]);
                    }
                }
                assert(self.paths@[i as int].0@ == key@);
            }
        }
    }

    /// The page's document: the cached one if the page has not changed since
    /// it was last built, else a new one, which is then cached.
    pub fn build(&mut self) -> (r: Arc<OpenApi>)
        requires
            old(self).wf(),
        ensures
            final(self).wf(),
            built(*old(self), *final(self), r),
    {
        match &self.last_build {
            Some(doc) => {
                return share(doc);
            },
            None => {},
        }
        let mut paths: Vec<(String, PathItem)> = Vec::new();
        let mut i: usize = 0;
        while i < self.paths.len()
            invariant
                i <= self.paths@.len(),
                paths@ == self.paths@.subrange(0, i as int),
            decreases self.paths@.len() - i,
        {
            paths.push((self.paths[i].0.clone(), self.paths[i].1.share()));
            i = i + 1;
            proof {
                assert(paths@ =~= self.paths@.subrange(0, i as int));
            }
        }
        proof {
            assert(paths@ =~= self.paths@);
        }
        let doc = OpenApi {
            openapi: String::from_str("3.0.0"),
            info: info(&self.meta),
            paths,
            schemas: convert_properties(&self.generator.definitions),
        };
        let doc = Arc::new(doc);
        self.last_build = Some(share(&doc));
        doc
    }
}

/// Where the template `key` stands in a path table.
fn find_path(paths: &Vec<(String, PathItem)>, key: &String) -> (r: Option<usize>)
    ensures
        match r {
            Some(i) => i < paths@.len() && paths@[i as int].0@ == key@,
            None => !has_path(paths@, key@),
        },
{
    let mut i: usize = 0;
    while i < paths.len()
        invariant
            i <= paths@.len(),
            forall|k: int| 0 <= k < i ==> #[trigger] paths@[k].0@ != key@,
        decreases paths@.len() - i,
    {
        if paths[i].0 == *key {
            return Some(i);
        }
        i = i + 1;
    }
    None
}

/// The summary of a handler documented by `doc`: its first line, trimmed.
pub open spec fn summary_of(doc: Seq<String>) -> Option<Seq<char>> {
    if doc.len() == 0 {
        None
    } else {
        Some(trim_of(doc[0]@))
    }
}

/// The description of a handler documented by `doc`: the lines after the
/// first, trimmed and joined by line breaks (none if there are no such lines).
pub open spec fn description_of(doc: Seq<String>) -> Option<Seq<char>> {
    if doc.len() <= 1 {
        None
    } else {
        Some(joined_doc(doc.subrange(1, doc.len() as int)))
    }
}

/// Whether `t` is the text `v` says, or absent when `v` is.
pub open spec fn text_is(t: Option<String>, v: Option<Seq<char>>) -> bool {
    match v {
        None => t is None,
        Some(x) => t is Some && t->0@ == x,
    }
}

/// The summary and the description of a handler documented by `doc`.
pub fn doc_texts(doc: &Vec<String>) -> (r: (Option<String>, Option<String>))
    ensures
        text_is(r.0, summary_of(doc@)),
        text_is(r.1, description_of(doc@)),
{
    if doc.len() == 0 {
        return (None, None);
    }
    let summary = trim(doc[0].as_str());
    if doc.len() == 1 {
        return (Some(summary), None);
    }
    let mut text = trim(doc[1].as_str());
    let mut j: usize = 2;
    proof {
        assert(doc@.subrange(1, 2).len() == 1);
        assert(doc@.subrange(1, 2)[0] == doc@[1]);
    }
    while j < doc.len()
        invariant
            2 <= j <= doc@.len(),
            text@ == joined_doc(doc@.subrange(1, j as int)),
        decreases doc@.len() - j,
    {
        let line = trim(doc[j].as_str());
        text.append("\n");
        text.append(line.as_str());
        j = j + 1;
        proof {
            assert(doc@.subrange(1, j as int).drop_last() =~= doc@.subrange(1, j - 1));
            assert(seq!['\n'] =~= "\n"@) by {
                reveal_strlit("\n");
            }
        }
    }
    (Some(summary), Some(text))
}

/// What a handler contributes to its operation, tags aside.
#[derive(Debug)]
pub struct OperationDescription {
    /// Whether the handler is marked deprecated.
    pub deprecated: bool,
    /// The lines of the handler's documentation.
    pub doc: Vec<String>,
    /// The handler's name.
    pub ident: String,
    pub responses: Responses,
    /// The bodies its arguments read; the last one is kept.
    pub request_body: Vec<RequestBody>,
    pub parameters: Vec<Parameter>,
}

impl OperationDescription {
    /// The operation: summary and description from the documentation, the
    /// last request body, no tags.
    pub fn build(self) -> (op: Operation)
        ensures
            text_is(op.summary, summary_of(self.doc@)),
            text_is(op.description, description_of(self.doc@)),
            op.operation_id is Some,
            op.operation_id->0@ == self.ident@,
            op.parameters@ == self.parameters@,
            op.request_body == if self.request_body@.len() > 0 {
                Some(self.request_body@.last())
            } else {
                None
            },
            op.responses == self.responses,
            op.deprecated == self.deprecated,
            op.tags@.len() == 0,
    {
        let (summary, description) = doc_texts(&self.doc);
        let OperationDescription { deprecated, doc, ident, responses, request_body, parameters } = self;
        let mut bodies = request_body;
        let body = bodies.pop();
        Operation {
            summary,
            description,
            operation_id: Some(ident),
            parameters,
            request_body: body,
            responses,
            deprecated,
            tags: Vec::new(),
        }
    }
}

/// Builds the operation of a handler.
fn build_operation(handler: &ContextHandler, arguments: Vec<ArgumentSchemas>, responses: Responses) -> (op:
    Operation)
    ensures
        operation_of(*handler, arguments@, responses, op),
{
    let n = arguments.len();
    let ghost args = arguments@;
    let mut parameters: Vec<Parameter> = Vec::new();
    let mut request_body: Option<RequestBody> = None;
    let mut rest = arguments;
    let mut k: usize = 0;
    while rest.len() > 0
        invariant
            args.len() == n,
            k + rest@.len() == args.len(),
            rest@ == args.subrange(k as int, args.len() as int),
            parameters@ == all_parameters(args.subrange(0, k as int)),
            request_body == last_body(args.subrange(0, k as int)),
        decreases rest@.len(),
    {
        let mut arg = rest.remove(0);
        proof {
            assert(arg == args[k as int]);
            assert(args.subrange(0, k + 1).drop_last() =~= args.subrange(0, k as int));
            assert(args.subrange(0, k + 1).last() == arg);
        }
        parameters.append(&mut arg.parameters);
        match arg.request_body {
            Some(b) => {
                request_body = Some(b);
            },
            None => {},
        }
        k = k + 1;
        proof {
            assert(rest@ =~= args.subrange(k as int, args.len() as int));
        }
    }
    proof {
        assert(args.subrange(0, k as int) =~= args);
    }
    let (summary, description) = doc_texts(&handler.handler.doc);
    Operation {
        summary,
        description,
        operation_id: Some(handler.handler.ident.clone()),
        parameters,
        request_body,
        responses,
        deprecated: handler.handler.deprecated,
        tags: copy_strings(&handler.tags),
    }
}

/// The info block of a page's document.
fn info(meta: &SwaggapiPageBuilder) -> (r: Info)
    ensures
        info_of(*meta, r),
{
    let title = match &meta.title {
        Some(t) => t.clone(),
        None => String::from_str("Unnamed API"),
    };
    let contact = if meta.contact_name.is_some() || meta.contact_url.is_some() || meta.contact_email.is_some() {
        Some(
            Contact {
                name: copy_opt_string(&meta.contact_name),
                url: copy_opt_string(&meta.contact_url),
                email: copy_opt_string(&meta.contact_email),
            },
        )
    } else {
        None
    };
    let license = if meta.license_name.is_some() || meta.license_url.is_some() {
        let name = match &meta.license_name {
            Some(t) => t.clone(),
            None => String::from_str("Unnamed License"),
        };
        Some(License { name, url: copy_opt_string(&meta.license_url) })
    } else {
        None
    };
    let version = match &meta.version {
        Some(t) => t.clone(),
        None => String::from_str("v0.0.0"),
    };
    Info {
        title,
        description: copy_opt_string(&meta.description),
        terms_of_service: copy_opt_string(&meta.terms_of_service),
        contact,
        license,
        version,
    }
}

/// Building twice with no change in between gives the same document.
pub proof fn law_build_cached(
    s0: SwaggapiPageBuilderImpl,
    s1: SwaggapiPageBuilderImpl,
    r1: Arc<OpenApi>,
    s2: SwaggapiPageBuilderImpl,
    r2: Arc<OpenApi>,
)
    requires
        built(s0, s1, r1),
        built(s1, s2, r2),
    ensures
        r2 == r1,
        s2 == s1,
{
}

/// After a handler is added, the next build assembles a new document from
/// the changed page, which holds the handler's operation.
pub proof fn law_add_rebuilds(
    s0: SwaggapiPageBuilderImpl,
    h: ContextHandler,
    args: Seq<ArgumentSchemas>,
    responses: Responses,
    s1: SwaggapiPageBuilderImpl,
    s2: SwaggapiPageBuilderImpl,
    r: Arc<OpenApi>,
)
    requires
        handler_added(s0, h, args, responses, s1),
        built(s1, s2, r),
    ensures
        document_of(s1, *r),
        exists|i: int|
            0 <= i < r.paths@.len() && #[trigger] r.paths@[i].0@ == h.path@ && slot(
                r.paths@[i].1,
                h.handler.method,
            ) is Some && operation_of(h, args, responses, *slot(r.paths@[i].1, h.handler.method)->0),
{
}

/// Adding two handlers with the same path and method leaves one entry for
/// the path, whose slot for the method holds the second handler's operation.
pub proof fn law_overwrite_not_duplicate(
    s0: SwaggapiPageBuilderImpl,
    h1: ContextHandler,
    a1: Seq<ArgumentSchemas>,
    r1: Responses,
    s1: SwaggapiPageBuilderImpl,
    h2: ContextHandler,
    a2: Seq<ArgumentSchemas>,
    r2: Responses,
    s2: SwaggapiPageBuilderImpl,
)
    requires
        s2.wf(),
        handler_added(s0, h1, a1, r1, s1),
        handler_added(s1, h2, a2, r2, s2),
        h1.path@ == h2.path@,
        h1.handler.method == h2.handler.method,
    ensures
        exists|i: int|
            0 <= i < s2.paths@.len() && #[trigger] s2.paths@[i].0@ == h2.path@ && (forall|j: int|
                0 <= j < s2.paths@.len() && #[trigger] s2.paths@[j].0@ == h2.path@ ==> j == i)
                && slot(s2.paths@[i].1, h2.handler.method) is Some && operation_of(
                h2,
                a2,
                r2,
                *slot(s2.paths@[i].1, h2.handler.method)->0,
            ),
{
    let i = choose|i: int|
        0 <= i < s2.paths@.len() && #[trigger] s2.paths@[i].0@ == h2.path@ && {
            let item = s2.paths@[i].1;
            &&& slot(item, h2.handler.method) is Some
            &&& operation_of(h2, a2, r2, *slot(item, h2.handler.method)->0)
            &&& forall|n: HttpMethod|
                n != h2.handler.method ==> #[trigger] slot(item, n) == if i < s1.paths@.len() {
                    slot(s1.paths@[i].1, n)
                } else {
                    None
                }
        };
    assert forall|j: int| 0 <= j < s2.paths@.len() && #[trigger] s2.paths@[j].0@ == h2.path@ implies j == i by {
        if j != i {
            if j < i {
                assert(s2.paths@[j].0@ != s2.paths@[i].0@);
            } else {
                assert(s2.paths@[i].0@ != s2.paths@[j].0@);
            }
        }
    }
}


/// Asking twice for the schema named `name` (for a request body and for a
/// response) gives the same `$ref` both times, and a document of a page
/// holding the resulting table has exactly one component named `name`.
pub proof fn law_named_schema_shared(
    g0: SchemaGenerator,
    g1: SchemaGenerator,
    g2: SchemaGenerator,
    name: Seq<char>,
    s1: JsonSchema,
    s2: JsonSchema,
    r1: SchemaRef,
    r2: SchemaRef,
    st: SwaggapiPageBuilderImpl,
    doc: OpenApi,
)
    requires
        g2.wf(),
        generated(g0, name, s1, g1, r1),
        generated(g1, name, s2, g2, r2),
        st.generator == g2,
        document_of(st, doc),
    ensures
        r1 is Reference && r2 is Reference,
        r1->Reference_0@ == ref_path(name),
        r2->Reference_0@ == ref_path(name),
        exists|i: int|
            0 <= i < doc.schemas@.len() && #[trigger] doc.schemas@[i].0@ == name && (forall|j: int|
                0 <= j < doc.schemas@.len() && #[trigger] doc.schemas@[j].0@ == name ==> j == i),
{
    let defs = g2.definitions@;
    if !has_name(g1.definitions@, name) {
        assert(g2.definitions@.last().0@ == name);
        assert(defs[defs.len() - 1].0@ == name);
    }
    assert(has_name(defs, name));
    lemma_props_converted_names(defs, doc.schemas@);
    let i = choose|i: int| 0 <= i < defs.len() && #[trigger] defs[i].0@ == name;
    assert(doc.schemas@[i].0@ == name);
    assert forall|j: int| 0 <= j < doc.schemas@.len() && #[trigger] doc.schemas@[j].0@ == name implies j == i by {
        assert(doc.schemas@[j].0 == defs[j].0);
        if j < i {
            assert(defs[j].0@ != defs[i].0@);
        } else if j > i {
            assert(defs[i].0@ != defs[j].0@);
        }
    }
}
} // verus!
