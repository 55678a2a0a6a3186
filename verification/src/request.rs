use crate::headers::Headers;
use vstd::prelude::*;

verus! {

/// The HTTP verb of one request.
#[derive(Clone, Copy, Debug, PartialEq, Eq, Structural)]
pub enum Method {
    Get,
    Post,
    Put,
    Patch,
    Delete,
}

/// The body attached to one request: nothing, a structured key/value
/// mapping to be sent as JSON, or a multipart form.  The two non-empty
/// shapes are mutually exclusive by construction.
#[derive(Debug)]
pub enum ReqBody {
    Empty,
    Json(Vec<(String, serde_json::Value)>),
    Multipart(reqwest::multipart::Form),
}

/// Everything one HTTP round trip needs: where to go, which verb to
/// use, which bearer token and extra headers to attach, and which body
/// to send.  The caller that owns the transport performs it exactly as
/// written here, once, and reports back what came of it.
#[derive(Debug)]
pub struct RequestDescriptor {
    pub url: String,
    pub method: Method,
    pub bearer: Option<String>,
    pub headers: Headers,
    pub body: ReqBody,
}

} // verus!
