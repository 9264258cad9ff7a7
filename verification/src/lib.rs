//! The request and response boundary of an image-generation gateway: the
//! decoder of multipart requests, the registry of uploaded files, the
//! rewriting of the engine's links and the routing of the files endpoint.

pub mod text;
pub mod number;
pub mod files;
pub mod multipart;
pub mod fields;
pub mod draft;
pub mod json;
pub mod request;
pub mod response;
pub mod routes;
pub mod service;
pub mod handlers;
pub mod laws;
