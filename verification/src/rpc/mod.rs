//! Remote procedure calls that describe themselves.

pub mod document_laws;
pub mod json;
pub mod laws;
pub mod openrpc_types;
pub mod params;
pub mod reflect;
pub mod request_laws;
