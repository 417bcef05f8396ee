//! A declarative-to-imperative compiler core for HTTP service handlers.
//!
//! Two independent passes work on immutable build-time schemas:
//!
//! * the error-response compiler turns an annotated error taxonomy
//!   ([`schema::ErrorSchema`]) into a total `error -> response` mapping
//!   ([`render::render`]);
//! * the route-wrapper compiler turns an annotated handler signature
//!   ([`schema::RouteSchema`]) into an ordered, short-circuiting
//!   extraction-and-dispatch pipeline ([`dispatch`]).
//!
//! The HTTP runtime, the request extractors and the display-message
//! formatter are external collaborators: they appear here only as the
//! plain values they hand over (status codes, display strings, rendered
//! responses, extraction outcomes).

use vstd::prelude::*;

pub mod dispatch;
pub mod meta;
pub mod render;
pub mod response;
pub mod schema;
pub mod status;

use crate::response::Response;

verus! {

/// The result shape a business handler declares: a success payload that
/// already is a valid response, or a domain error of a compiled taxonomy.
pub type HttpResult<E> = Result<Response, E>;

} // verus!
