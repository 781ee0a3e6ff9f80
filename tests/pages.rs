use std::sync::Arc;

use swaggapi::argument::{Boolean, Else, HandlerArgument, SchemalessJson, TraitProbe};
use swaggapi::context::{route_parameter_names, ApiContext, PageOfEverything, PathSyntax, EVERYTHING};
use swaggapi::document::{OpenApi, ParameterLocation, StatusCode};
use swaggapi::generator::SchemaGenerator;
use swaggapi::method::{HttpMethod, Method};
use swaggapi::openapi::{SchemaKind, SchemaRef, TypeName};
use swaggapi::page::{
    doc_texts, ArgumentSchemas, ContextHandler, OperationDescription, SwaggapiHandler, SwaggapiPageBuilder,
    SwaggapiPageBuilderImpl,
};
use swaggapi::ptrset::{ComparePtr, PtrSet};
use swaggapi::responses::{
    error_responses, file_responses, merge_responses, ok_binary, ok_empty, ok_json, ok_text, path_parameters,
    query_parameters, redirect_responses, simple_request_body, simple_responses, MimeType, SimpleRequestBody,
    SimpleResponse,
};
use swaggapi::schema::{InstanceType, JsonSchema, ObjectValidation, SchemaObject, TypeList};

fn blank() -> SchemaObject {
    SchemaObject {
        metadata: None,
        instance_type: None,
        format: None,
        enum_values: None,
        const_value: None,
        subschemas: None,
        number: None,
        string: None,
        array: None,
        object: None,
        reference: None,
        extensions: Vec::new(),
    }
}

fn single(t: InstanceType) -> JsonSchema {
    let mut o = blank();
    o.instance_type = Some(TypeList::Single(t));
    JsonSchema::Object(o)
}

fn reference(name: &str) -> JsonSchema {
    let mut o = blank();
    o.reference = Some(format!("#/components/schemas/{name}"));
    JsonSchema::Object(o)
}

/// The schema of a struct `{foo: integer, bar: string}`.
fn foo_bar() -> JsonSchema {
    let mut o = blank();
    o.instance_type = Some(TypeList::Single(InstanceType::Object));
    o.object = Some(Box::new(ObjectValidation {
        max_properties: None,
        min_properties: None,
        required: vec!["foo".to_string(), "bar".to_string()],
        properties: vec![
            ("foo".to_string(), single(InstanceType::Integer)),
            ("bar".to_string(), single(InstanceType::String)),
        ],
        pattern_properties: Vec::new(),
        additional_properties: None,
        property_names: None,
    }));
    JsonSchema::Object(o)
}

fn handler(method: HttpMethod, path: &str, ident: &str, doc: &[&str]) -> SwaggapiHandler {
    SwaggapiHandler {
        method,
        path: path.to_string(),
        deprecated: false,
        doc: doc.iter().map(|s| s.to_string()).collect(),
        ident: ident.to_string(),
        tags: Vec::new(),
    }
}

fn lone(h: SwaggapiHandler) -> ContextHandler {
    ContextHandler::new(h)
}

fn find<'a>(doc: &'a OpenApi, path: &str) -> &'a swaggapi::document::PathItem {
    let matches: Vec<_> = doc.paths.iter().filter(|(p, _)| p == path).collect();
    assert_eq!(matches.len(), 1, "one entry for {path}");
    &matches[0].1
}

#[test]
fn generating_twice_gives_the_same_reference() {
    let mut gen = SchemaGenerator::new();
    let name = "JsonBody".to_string();
    let first = gen.generate(&name, foo_bar());
    let second = gen.generate(&name, foo_bar());
    match (first, second) {
        (SchemaRef::Reference(a), SchemaRef::Reference(b)) => {
            assert_eq!(a, "#/components/schemas/JsonBody");
            assert_eq!(a, b);
        },
        other => panic!("expected references, got {other:?}"),
    }
    assert_eq!(gen.definitions.len(), 1);
}

#[test]
fn define_all_records_each_name_once() {
    let mut gen = SchemaGenerator::new();
    gen.define_all(vec![
        ("A".to_string(), JsonSchema::Bool(true)),
        ("B".to_string(), JsonSchema::Bool(true)),
        ("A".to_string(), JsonSchema::Bool(false)),
    ]);
    let names: Vec<&str> = gen.definitions.iter().map(|(n, _)| n.as_str()).collect();
    assert_eq!(names, vec!["A", "B"]);
    assert!(matches!(gen.definitions[0].1, JsonSchema::Bool(true)));
}

#[test]
fn refless_generation_fails_on_a_reference() {
    let gen = SchemaGenerator::new();
    match gen.generate_refless(&reference("Thing")) {
        Err(name) => assert_eq!(name, "#/components/schemas/Thing"),
        Ok(s) => panic!("expected an error, got {s:?}"),
    }
    assert!(gen.generate_refless(&single(InstanceType::String)).is_ok());
}

#[test]
fn object_shape_is_read_from_object_schemas_only() {
    let gen = SchemaGenerator::new();
    let (obj, _) = gen.generate_object(&foo_bar()).expect("an object");
    assert_eq!(obj.properties.len(), 2);
    assert_eq!(obj.required.len(), 2);
    assert!(gen.generate_object(&single(InstanceType::String)).is_none());
    assert!(gen.generate_object(&reference("Thing")).is_none());
}

#[test]
fn query_parameters_come_from_properties() {
    let gen = SchemaGenerator::new();
    let params = query_parameters(&gen, &foo_bar());
    assert_eq!(params.len(), 2);
    assert_eq!(params[0].name, "foo");
    assert_eq!(params[1].name, "bar");
    assert!(params.iter().all(|p| p.required && p.location == ParameterLocation::Query));
    assert!(query_parameters(&gen, &single(InstanceType::Integer)).is_empty());
}

#[test]
fn lone_path_parameter_is_named_after_the_route() {
    let gen = SchemaGenerator::new();
    let names = vec!["id".to_string()];
    let params = path_parameters(&gen, &single(InstanceType::Integer), &names);
    assert_eq!(params.len(), 1);
    assert_eq!(params[0].name, "id");
    assert!(params[0].required);
    assert_eq!(params[0].location, ParameterLocation::Path);
    let two = vec!["a".to_string(), "b".to_string()];
    assert!(path_parameters(&gen, &single(InstanceType::Integer), &two).is_empty());
    assert!(path_parameters(&gen, &reference("Thing"), &names).is_empty());
}

#[test]
fn simple_bodies_and_responses() {
    let body = simple_request_body(SimpleRequestBody { mime_type: MimeType::ApplicationWwwFormUrlencoded, schema: None });
    assert!(body.required);
    assert_eq!(body.content[0].0, "application/x-www-form-urlencoded");
    let text = ok_text();
    assert_eq!(text.responses[0].0, StatusCode::Code(200));
    assert_eq!(text.responses[0].1.content[0].0, "text/plain; charset=utf-8");
    assert_eq!(ok_binary().responses[0].1.content[0].0, "application/octet-stream");
    assert!(ok_empty().responses[0].1.content.is_empty());
    let json = ok_json(SchemaRef::Reference("#/components/schemas/X".to_string()));
    assert_eq!(json.responses[0].1.content[0].0, "application/json");
    let many = simple_responses(vec![
        SimpleResponse {
            status_code: StatusCode::Range(4),
            mime_type: MimeType::TextPlainUtf8,
            description: "bad".to_string(),
            media_type: None,
        },
        SimpleResponse {
            status_code: StatusCode::Code(200),
            mime_type: MimeType::ApplicationJson,
            description: "ok".to_string(),
            media_type: None,
        },
    ]);
    assert_eq!(many.responses.len(), 2);
    assert_eq!(many.responses[0].0, StatusCode::Range(4));
    assert_eq!(many.responses[1].1.description, "ok");
}

#[test]
fn arguments_describe_their_bodies() {
    let mut gen = SchemaGenerator::new();
    let names: Vec<String> = Vec::new();
    let text = <String as HandlerArgument>::request_body(&mut gen).expect("a body");
    assert_eq!(text.content[0].0, "text/plain; charset=utf-8");
    let json = <SchemalessJson<u8> as HandlerArgument>::request_body(&mut gen).expect("a body");
    assert_eq!(json.content[0].0, "application/json");
    assert!(<String as HandlerArgument>::parameters(&mut gen, &names).is_empty());
}

#[test]
fn probes_answer_by_bounds() {
    let probe: TraitProbe<String> = TraitProbe::new();
    assert!(probe.should_be_handler_argument());
    assert!(probe.is_handler_argument().value());
    assert!(!Else.should_be_handler_argument());
    assert!(!Else.is_handler_argument().value());
}

#[test]
fn doc_lines_give_summary_and_description() {
    let mut page = SwaggapiPageBuilderImpl::new(SwaggapiPageBuilder::new());
    let h = lone(handler(HttpMethod::Post, "/docs", "documented", &["  Hello  ", "   world "]));
    page.add_handler(&h, Vec::new(), ok_empty());
    let doc = page.build();
    let op = find(&doc, "/docs").post.as_ref().expect("post");
    assert_eq!(op.summary.as_deref(), Some("Hello"));
    assert_eq!(op.description.as_deref(), Some("world"));
    assert_eq!(op.operation_id.as_deref(), Some("documented"));
}

#[test]
fn last_request_body_wins_and_parameters_add_up() {
    let gen = SchemaGenerator::new();
    let mut page = SwaggapiPageBuilderImpl::new(SwaggapiPageBuilder::new());
    let names = vec!["id".to_string()];
    let args = vec![
        ArgumentSchemas {
            parameters: path_parameters(&gen, &single(InstanceType::Integer), &names),
            request_body: Some(simple_request_body(SimpleRequestBody { mime_type: MimeType::TextPlainUtf8, schema: None })),
        },
        ArgumentSchemas { parameters: query_parameters(&gen, &foo_bar()), request_body: None },
        ArgumentSchemas {
            parameters: Vec::new(),
            request_body: Some(simple_request_body(SimpleRequestBody { mime_type: MimeType::ApplicationJson, schema: None })),
        },
    ];
    let h = lone(handler(HttpMethod::Put, "/items/{id}", "put_item", &[]));
    page.add_handler(&h, args, ok_empty());
    let doc = page.build();
    let op = find(&doc, "/items/{id}").put.as_ref().expect("put");
    assert_eq!(op.parameters.len(), 3);
    assert_eq!(op.request_body.as_ref().unwrap().content[0].0, "application/json");
    assert!(op.summary.is_none() && op.description.is_none());
}

#[test]
fn build_is_cached_until_a_handler_is_added() {
    let mut page = SwaggapiPageBuilderImpl::new(SwaggapiPageBuilder::new());
    page.add_handler(&lone(handler(HttpMethod::Get, "/a", "a", &[])), Vec::new(), ok_text());
    let first = page.build();
    let second = page.build();
    assert!(Arc::ptr_eq(&first, &second));
    page.add_handler(&lone(handler(HttpMethod::Get, "/b", "b", &[])), Vec::new(), ok_text());
    let third = page.build();
    assert!(!Arc::ptr_eq(&first, &third));
    assert_eq!(first.paths.len(), 1);
    assert_eq!(third.paths.len(), 2);
}

#[test]
fn same_path_and_method_overwrite() {
    let mut page = SwaggapiPageBuilderImpl::new(SwaggapiPageBuilder::new());
    page.add_handler(&lone(handler(HttpMethod::Get, "/same", "first", &[])), Vec::new(), ok_text());
    page.add_handler(&lone(handler(HttpMethod::Post, "/same", "other", &[])), Vec::new(), ok_text());
    page.add_handler(&lone(handler(HttpMethod::Get, "/same", "second", &[])), Vec::new(), ok_binary());
    let doc = page.build();
    assert_eq!(doc.paths.len(), 1);
    let item = find(&doc, "/same");
    assert_eq!(item.get.as_ref().unwrap().operation_id.as_deref(), Some("second"));
    assert_eq!(item.post.as_ref().unwrap().operation_id.as_deref(), Some("other"));
    assert!(item.operation(HttpMethod::Delete).is_none());
}

#[test]
fn info_block_defaults() {
    let mut page = SwaggapiPageBuilderImpl::new(SwaggapiPageBuilder::new());
    let doc = page.build();
    assert_eq!(doc.openapi, "3.0.0");
    assert_eq!(doc.info.title, "Unnamed API");
    assert_eq!(doc.info.version, "v0.0.0");
    assert!(doc.info.contact.is_none() && doc.info.license.is_none());
    let meta = SwaggapiPageBuilder::new().license_url("https://example.org/l").contact_email("a@b.c").filename("x.json");
    let mut page = SwaggapiPageBuilderImpl::new(meta);
    let doc = page.build();
    assert_eq!(doc.info.license.as_ref().unwrap().name, "Unnamed License");
    assert_eq!(doc.info.contact.as_ref().unwrap().email.as_deref(), Some("a@b.c"));
    assert!(doc.info.contact.as_ref().unwrap().name.is_none());
    assert_eq!(page.meta.filename.as_deref(), Some("x.json"));
}

#[test]
fn plain_text_handler_scenario() {
    let meta = SwaggapiPageBuilder::new().title("Demo").version("1.0");
    let mut page = SwaggapiPageBuilderImpl::new(meta);
    page.add_handler(&lone(handler(HttpMethod::Get, "/index", "index", &[])), Vec::new(), ok_text());
    let doc = page.build();
    assert_eq!(doc.info.title, "Demo");
    assert_eq!(doc.info.version, "1.0");
    let op = find(&doc, "/index").get.as_ref().expect("get");
    assert!(op.parameters.is_empty());
    let (code, response) = &op.responses.responses[0];
    assert_eq!(*code, StatusCode::Code(200));
    assert!(response.content.iter().any(|(m, _)| m == "text/plain; charset=utf-8"));
}

#[test]
fn json_body_scenario_shares_one_named_schema() {
    let mut page = SwaggapiPageBuilderImpl::new(SwaggapiPageBuilder::new());
    let mut gen = page.take_generator();
    let name = "JsonBody".to_string();
    let body_schema = gen.generate(&name, foo_bar());
    let response_schema = gen.generate(&name, foo_bar());
    page.restore_generator(gen);
    let args = vec![ArgumentSchemas {
        parameters: Vec::new(),
        request_body: Some(simple_request_body(SimpleRequestBody { mime_type: MimeType::ApplicationJson, schema: Some(body_schema) })),
    }];
    page.add_handler(&lone(handler(HttpMethod::Post, "/json", "json", &[])), args, ok_json(response_schema));
    let doc = page.build();
    assert_eq!(doc.schemas.len(), 1);
    assert_eq!(doc.schemas[0].0, "JsonBody");
    let component = match &doc.schemas[0].1 {
        SchemaRef::Item(s) => s,
        other => panic!("expected an inline schema, got {other:?}"),
    };
    match &component.schema_kind {
        SchemaKind::Any(a) => assert_eq!(a.typ, Some(TypeName::Object)),
        other => panic!("unexpected kind {other:?}"),
    }
    let op = find(&doc, "/json").post.as_ref().expect("post");
    let body = op.request_body.as_ref().unwrap().content[0].1.schema.as_ref().unwrap();
    let response = op.responses.responses[0].1.content[0].1.schema.as_ref().unwrap();
    match (body, response) {
        (SchemaRef::Reference(a), SchemaRef::Reference(b)) => {
            assert_eq!(a, "#/components/schemas/JsonBody");
            assert_eq!(a, b);
        },
        other => panic!("expected references, got {other:?}"),
    }
}

#[test]
fn path_parameter_scenario_uses_braces() {
    let ctx = ApiContext::with_framework_impl("", ()).handler(handler(HttpMethod::Get, "/items/:id", "get_item", &[]));
    let ((), handlers) = ctx.finish(PathSyntax::Colon);
    assert_eq!(handlers[0].path, "/items/{id}");
    let gen = SchemaGenerator::new();
    let names = route_parameter_names(&handlers[0].path);
    assert_eq!(names, vec!["id".to_string()]);
    let params = path_parameters(&gen, &single(InstanceType::String), &names);
    let mut page = SwaggapiPageBuilderImpl::new(SwaggapiPageBuilder::new());
    page.add_handler(&handlers[0], vec![ArgumentSchemas { parameters: params, request_body: None }], ok_text());
    let doc = page.build();
    let op = find(&doc, "/items/{id}").get.as_ref().expect("get");
    assert_eq!(op.parameters[0].name, "id");
}

#[test]
fn colon_segments_run_to_the_next_slash() {
    let ctx = ApiContext::with_framework_impl("/api", ())
        .handler(handler(HttpMethod::Get, "/a/:x:y/b/:z", "a", &[]))
        .handler(handler(HttpMethod::Get, "/plain", "p", &[]));
    let ((), handlers) = ctx.finish(PathSyntax::Colon);
    assert_eq!(handlers[0].path, "/api/a/{x:y}/b/{z}");
    assert_eq!(handlers[1].path, "/api/plain");
}

#[test]
fn context_tags_and_pages_reach_all_handlers() {
    let mut tagged = handler(HttpMethod::Get, "/one", "one", &[]);
    tagged.tags = vec!["own".to_string()];
    let ctx = ApiContext::with_framework_impl("/v1", 7u8)
        .handler(tagged)
        .tag("shared")
        .page(ComparePtr(3))
        .handler(handler(HttpMethod::Get, "/two", "two", &[]))
        .tag("shared")
        .page(ComparePtr(3));
    assert_eq!(ctx.tags, vec!["shared".to_string()]);
    assert_eq!(ctx.handlers[0].tags, vec!["own".to_string(), "shared".to_string()]);
    assert_eq!(ctx.handlers[1].tags, vec!["shared".to_string()]);
    assert_eq!(ctx.handlers[0].pages.iter(), vec![3]);
    assert_eq!(ctx.handlers[1].pages.iter(), vec![3]);
    assert_eq!(ctx.handlers[1].page_ids(), vec![EVERYTHING, 3]);
    assert_eq!(ctx.handlers[1].path, "/v1/two");
    let (ctx, inner) = ApiContext::with_framework_impl("/outer", 1u8)
        .tag("outer")
        .merge(ctx);
    assert_eq!(inner, 7);
    assert_eq!(ctx.handlers[0].path, "/outer/v1/one");
    assert_eq!(ctx.handlers[1].tags, vec!["shared".to_string(), "outer".to_string()]);
    assert_eq!(PageOfEverything.id().into_ptr(), EVERYTHING);
}

#[test]
fn ptr_set_keeps_first_insertion_order() {
    let mut set = PtrSet::new();
    assert!(set.insert(4));
    assert!(set.insert(2));
    assert!(!set.insert(4));
    assert_eq!(set.iter(), vec![4, 2]);
    assert!(set.contains(2) && !set.contains(5));
}

#[test]
fn method_names() {
    assert_eq!(HttpMethod::Options.as_str(), "OPTIONS");
    assert_eq!(Method::Patch.as_str(), "PATCH");
    assert_eq!(Method::Trace.http_method(), HttpMethod::Trace);
}

#[test]
fn redirect_error_and_file_responses() {
    let r = redirect_responses(SchemaRef::Reference("#/components/schemas/String".to_string()));
    assert_eq!(r.responses[0].0, StatusCode::Range(3));
    assert_eq!(r.responses[0].1.headers[0].0, "Location");
    assert!(!r.responses[0].1.headers[0].1.required);
    let e = error_responses();
    assert!(e.responses.is_empty());
    assert_eq!(e.default.as_ref().unwrap().description, "Some error");
    assert_eq!(file_responses().responses[0].1.description, "A downloadable file");
}

#[test]
fn merged_responses_put_error_last() {
    let merged = merge_responses(ok_text(), error_responses());
    assert_eq!(merged.responses.len(), 1);
    assert_eq!(merged.default.as_ref().unwrap().description, "Some error");
    let merged = merge_responses(ok_text(), ok_binary());
    assert_eq!(merged.responses.len(), 2);
    assert_eq!(merged.responses[0].1.description, "Some plain text");
    assert_eq!(merged.responses[1].1.description, "Some binary data");
    assert!(merged.default.is_none());
}

#[test]
fn route_parameter_names_are_braced_segments() {
    assert_eq!(route_parameter_names("/a/{x}/b/{yz}"), vec!["x".to_string(), "yz".to_string()]);
    assert_eq!(route_parameter_names("{only}"), vec!["only".to_string()]);
    assert!(route_parameter_names("/a/{/b}/{}x/").is_empty());
    assert_eq!(route_parameter_names("/{}/"), vec!["".to_string()]);
    assert!(route_parameter_names("").is_empty());
}

#[test]
fn single_doc_line_gives_no_description() {
    let (summary, description) = doc_texts(&vec!["  Only  ".to_string()]);
    assert_eq!(summary.as_deref(), Some("Only"));
    assert!(description.is_none());
    let (summary, description) = doc_texts(&vec!["a".to_string(), " b ".to_string(), "c ".to_string()]);
    assert_eq!(summary.as_deref(), Some("a"));
    assert_eq!(description.as_deref(), Some("b\nc"));
    assert_eq!(doc_texts(&Vec::new()), (None, None));
}

#[test]
fn operation_description_keeps_last_body() {
    let op = OperationDescription {
        deprecated: true,
        doc: vec!["Title".to_string(), "More".to_string()],
        ident: "op".to_string(),
        responses: ok_text(),
        request_body: vec![
            simple_request_body(SimpleRequestBody { mime_type: MimeType::TextPlainUtf8, schema: None }),
            simple_request_body(SimpleRequestBody { mime_type: MimeType::ApplicationJson, schema: None }),
        ],
        parameters: Vec::new(),
    }
    .build();
    assert_eq!(op.summary.as_deref(), Some("Title"));
    assert_eq!(op.description.as_deref(), Some("More"));
    assert_eq!(op.operation_id.as_deref(), Some("op"));
    assert!(op.deprecated && op.tags.is_empty());
    assert_eq!(op.request_body.unwrap().content[0].0, "application/json");
}

#[test]
fn braces_syntax_is_kept() {
    let ctx = ApiContext::with_framework_impl("", ()).handler(handler(HttpMethod::Get, "/items/{id:\\d+}", "i", &[]));
    let ((), handlers) = ctx.finish(PathSyntax::Braces);
    assert_eq!(handlers[0].path, "/items/{id:\\d+}");
}

#[test]
fn define_all_keeps_given_order() {
    let mut gen = SchemaGenerator::new();
    gen.define_all(vec![("B".to_string(), JsonSchema::Bool(false)), ("A".to_string(), JsonSchema::Bool(true))]);
    let names: Vec<&str> = gen.definitions.iter().map(|(n, _)| n.as_str()).collect();
    assert_eq!(names, vec!["B", "A"]);
    assert!(matches!(gen.definitions[1].1, JsonSchema::Bool(true)));
}
