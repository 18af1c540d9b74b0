//! A typed client core for a mod-hosting platform's REST service: identifier
//! validation, request paths, filter queries, request preparation and the
//! mapping of responses into typed outcomes.

pub mod calls;
pub mod error;
pub mod ident;
pub mod json;
pub mod path;
pub mod query;
pub mod request;
pub mod response;
pub mod text;
