use vstd::prelude::*;

use crate::json::Json;

verus! {

/// The HTTP verb of a request the library asks its driver to perform.
#[derive(Debug, Clone, Copy, PartialEq, Eq, Structural)]
pub enum HttpMethod {
    Get,
    Post,
    Patch,
    Put,
}

/// One fully-described HTTP exchange the library asks its driver to
/// perform: the driver sends it as given and reports the outcome back.
/// The library never sees the wire; it only builds these values.
#[derive(Debug, PartialEq, Eq)]
pub struct HttpRequest {
    pub method: HttpMethod,
    pub url: String,
    pub bearer: Option<String>,
    pub body: Option<Json>,
}

/// The outcome of one HTTP exchange, as the driver reports it back: a
/// success response with its body parsed into a JSON document (`None` when
/// the body held no JSON), a vendor failure status with the raw body, or a
/// transport failure.
#[derive(Debug, PartialEq, Eq)]
pub enum HttpEvent {
    Success { body: Option<Json> },
    Failure { status: u16, body: String },
    Transport { message: String },
}

} // verus!
