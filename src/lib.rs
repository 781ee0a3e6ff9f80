//! Generation of OpenAPI documents from handler descriptions and JSON schemas.
//!
//! The core converts JSON-Schema nodes into OpenAPI 3.0 schema nodes
//! ([`convert`]), collects named schemas for `$ref` reuse ([`generator`]),
//! accumulates handlers into cached documents ([`page`]) and groups handlers
//! under paths, tags and pages ([`context`]).
pub mod argument;
pub mod context;
pub mod convert;
pub mod document;
pub mod generator;
pub mod json;
pub mod method;
pub mod openapi;
pub mod page;
pub mod ptrset;
pub mod responses;
pub mod schema;
