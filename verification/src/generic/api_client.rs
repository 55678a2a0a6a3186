use crate::defaults::DEFAULT_UA;
use crate::error::{Error, Kind};
use crate::headers::Headers;
use crate::request::{Method, ReqBody, RequestDescriptor};
use crate::transport::{build_transport, try_parse_url, url_accepted};
use vstd::prelude::*;

verus! {

/// The generic client every backend drives: one base URL, one optional
/// bearer token, one transport handle shared by all its requests, and
/// the user agent that transport was built with.  Immutable after
/// construction.
pub struct APIClient {
    pub access_token: Option<String>,
    pub base_url: String,
    pub user_agent: String,
    pub client: reqwest::Client,
}

/// The user agent a construction announces: the caller's, or the
/// default constant when none is supplied.
pub open spec fn spec_effective_user_agent(user_agent: Option<String>) -> Seq<char> {
    match user_agent {
        Some(agent) => agent@,
        None => DEFAULT_UA@,
    }
}

fn effective_user_agent(user_agent: Option<String>) -> (ua: String)
    ensures
        ua@ == spec_effective_user_agent(user_agent),
{
    match user_agent {
        Some(agent) => agent,
        None => DEFAULT_UA.to_owned(),
    }
}

/// What building a request comes to, for any client, path, headers,
/// verb and body: either a descriptor that copies the client's token
/// and the caller's data around the combined URL, or the URL refusal.
pub open spec fn spec_prepared(
    c: APIClient,
    path: Seq<char>,
    headers: Option<Headers>,
    method: Method,
    body: ReqBody,
    r: Result<RequestDescriptor, Error>,
) -> bool {
    &&& (r is Ok <==> url_accepted(c.base_url@ + path))
    &&& (r matches Ok(d) ==> {
        &&& d.url@ == c.base_url@ + path
        &&& d.method == method
        &&& d.bearer.deep_view() == c.access_token.deep_view()
        &&& (headers matches Some(h) ==> d.headers == h)
        &&& (headers is None ==> d.headers@.len() == 0)
        &&& d.body == body
    })
    &&& (r matches Err(e) ==> {
        &&& e.kind == Kind::UrlParseError
        &&& e.url matches Some(u) && u@ == c.base_url@ + path
        &&& e.status is None
        &&& e.headers is None
    })
}

/// What the transport reported for one round trip, as plain values.
pub enum Exchange {
    /// The round trip itself failed: DNS, connection or timeout trouble.
    Failed { cause: String },
    /// The server answered.  `body` is the body read as text, or nothing
    /// when it could not be read.
    Replied { status: u16, headers: Headers, body: Option<String> },
}

/// What the library concludes from one reported round trip.
pub enum Conclusion {
    /// Accepted status: decode the body as the expected type, then wrap
    /// payload and headers into a response envelope.
    Deliver { headers: Headers, body: Option<String> },
    /// The call failed; this is the error the caller gets.
    Abort { error: Error },
}

/// The statuses on which a call succeeds and the body is decoded.
pub open spec fn spec_is_success(status: u16) -> bool {
    status == 200 || status == 201 || status == 202 || status == 204
}

impl APIClient {
    /// Builds a client around a fresh transport carrying the given user
    /// agent, or the default one when none is supplied; the stored
    /// `user_agent` is the very string the transport received.  The
    /// token and base URL are stored exactly as given; a transport that
    /// cannot be constructed surfaces as the client-construction error.
    pub fn new(base_url: String, access_token: Option<String>, user_agent: Option<String>) -> (r:
        Result<APIClient, Error>)
        ensures
            r matches Ok(c) ==> c.base_url == base_url && c.access_token == access_token
                && c.user_agent@ == spec_effective_user_agent(user_agent),
            r matches Err(e) ==> e.kind == Kind::ClientBuildError && e.url is None && e.status
                is None && e.headers is None,
    {
        let ua: String = effective_user_agent(user_agent);
        match build_transport(ua.as_str()) {
            Ok(client) => Ok(APIClient { access_token, base_url, user_agent: ua, client }),
            Err(cause) => Err(Error::new_own(cause, Kind::ClientBuildError, None, None, None)),
        }
    }

    /// Builds the request one call will perform: the absolute URL from
    /// base and path, the configured bearer token, the caller's headers
    /// and body.  A path that does not combine into a parsable URL is
    /// refused with the URL error, and nothing else is.
    pub fn request(
        &self,
        path: &str,
        headers: Option<Headers>,
        method: Method,
        body: ReqBody,
    ) -> (r: Result<RequestDescriptor, Error>)
        ensures
            spec_prepared(*self, path@, headers, method, body, r),
    {
        let url: String = self.base_url.clone().concat(path);
        match try_parse_url(&url) {
            Ok(()) => {
                let bearer: Option<String> = match &self.access_token {
                    Some(t) => Some(t.clone()),
                    None => None,
                };
                let hs: Headers = match headers {
                    Some(h) => h,
                    None => Vec::new(),
                };
                Ok(RequestDescriptor { url, method, bearer, headers: hs, body })
            },
            Err(cause) => Err(
                Error::new_own(cause, Kind::UrlParseError, Some(url), None, None),
            ),
        }
    }

    /// One GET; no body.
    pub fn get(&self, path: &str, headers: Option<Headers>) -> (r: Result<
        RequestDescriptor,
        Error,
    >)
        ensures
            spec_prepared(*self, path@, headers, Method::Get, ReqBody::Empty, r),
    {
        self.request(path, headers, Method::Get, ReqBody::Empty)
    }

    /// One POST carrying a structured body.
    pub fn post(
        &self,
        path: &str,
        params: Vec<(String, serde_json::Value)>,
        headers: Option<Headers>,
    ) -> (r: Result<RequestDescriptor, Error>)
        ensures
            spec_prepared(*self, path@, headers, Method::Post, ReqBody::Json(params), r),
    {
        self.request(path, headers, Method::Post, ReqBody::Json(params))
    }

    /// One POST carrying a multipart form.
    pub fn post_multipart(
        &self,
        path: &str,
        params: reqwest::multipart::Form,
        headers: Option<Headers>,
    ) -> (r: Result<RequestDescriptor, Error>)
        ensures
            spec_prepared(*self, path@, headers, Method::Post, ReqBody::Multipart(params), r),
    {
        self.request(path, headers, Method::Post, ReqBody::Multipart(params))
    }

    /// One PUT carrying a structured body.
    pub fn put(
        &self,
        path: &str,
        params: Vec<(String, serde_json::Value)>,
        headers: Option<Headers>,
    ) -> (r: Result<RequestDescriptor, Error>)
        ensures
            spec_prepared(*self, path@, headers, Method::Put, ReqBody::Json(params), r),
    {
        self.request(path, headers, Method::Put, ReqBody::Json(params))
    }

    /// One PUT carrying a multipart form.
    pub fn put_multipart(
        &self,
        path: &str,
        params: reqwest::multipart::Form,
        headers: Option<Headers>,
    ) -> (r: Result<RequestDescriptor, Error>)
        ensures
            spec_prepared(*self, path@, headers, Method::Put, ReqBody::Multipart(params), r),
    {
        self.request(path, headers, Method::Put, ReqBody::Multipart(params))
    }

    /// One PATCH carrying a structured body.
    pub fn patch(
        &self,
        path: &str,
        params: Vec<(String, serde_json::Value)>,
        headers: Option<Headers>,
    ) -> (r: Result<RequestDescriptor, Error>)
        ensures
            spec_prepared(*self, path@, headers, Method::Patch, ReqBody::Json(params), r),
    {
        self.request(path, headers, Method::Patch, ReqBody::Json(params))
    }

    /// One DELETE carrying a structured body.
    pub fn delete(
        &self,
        path: &str,
        params: Vec<(String, serde_json::Value)>,
        headers: Option<Headers>,
    ) -> (r: Result<RequestDescriptor, Error>)
        ensures
            spec_prepared(*self, path@, headers, Method::Delete, ReqBody::Json(params), r),
    {
        self.request(path, headers, Method::Delete, ReqBody::Json(params))
    }
}

/// Classifies one completed round trip: an accepted status asks for the
/// body to be decoded, 206 becomes the partial-content error, any other
/// status the status error carrying the body text (or the fixed
/// fallback line), and a transport failure the connection error.
pub fn conclude(url: String, outcome: Exchange) -> (c: Conclusion)
    ensures
        outcome matches Exchange::Failed { cause } ==> (c matches Conclusion::Abort { error }
            && error.kind == Kind::RequestError && error.message == cause && error.url == Some(
            url,
        ) && error.status is None && error.headers is None),
        outcome matches Exchange::Replied { status, headers, body } ==> {
            &&& (spec_is_success(status) ==> (c matches Conclusion::Deliver {
                headers: h,
                body: b,
            } && h == headers && b == body))
            &&& (status == 206 ==> (c matches Conclusion::Abort { error } && error.kind
                == Kind::HTTPPartialContentError && error.message@
                == "The requested resource is still being processed"@ && error.url == Some(url)
                && error.status == Some(status) && error.headers == Some(headers)))
            &&& (!spec_is_success(status) && status != 206 ==> (c matches Conclusion::Abort {
                error,
            } && error.kind == Kind::HTTPStatusError && (body matches Some(t) ==> error.message
                == t) && (body is None ==> error.message@ == "Unknown error"@) && error.url
                == Some(url) && error.status == Some(status) && error.headers == Some(headers)))
        },
{
    match outcome {
        Exchange::Failed { cause } => Conclusion::Abort {
            error: Error::new_own(cause, Kind::RequestError, Some(url), None, None),
        },
        Exchange::Replied { status, headers, body } => {
            if status == 200 || status == 201 || status == 202 || status == 204 {
                Conclusion::Deliver { headers, body }
            } else if status == 206 {
                Conclusion::Abort {
                    error: Error::new_own(
                        "The requested resource is still being processed".to_owned(),
                        Kind::HTTPPartialContentError,
                        Some(url),
                        Some(status),
                        Some(headers),
                    ),
                }
            } else {
                let message: String = match body {
                    Some(t) => t,
                    None => "Unknown error".to_owned(),
                };
                Conclusion::Abort {
                    error: Error::new_own(
                        message,
                        Kind::HTTPStatusError,
                        Some(url),
                        Some(status),
                        Some(headers),
                    ),
                }
            }
        },
    }
}

/// Finishes an accepted round trip once the delivered body has been
/// decoded: a decoded payload becomes the envelope built from it and
/// the delivered headers; a decoder refusal becomes the
/// deserialization-kind error carrying the request URL.
pub fn deliver<T>(url: String, headers: Headers, decoded: Result<T, String>) -> (r: Result<
    crate::response::Response<T>,
    Error,
>)
    ensures
        decoded matches Ok(payload) ==> (r matches Ok(resp) && crate::response::spec_envelope(
            payload,
            headers,
            resp,
        )),
        decoded matches Err(cause) ==> (r matches Err(e) && e.kind == Kind::ParseError
            && e.message == cause && e.url == Some(url) && e.status is None && e.headers
            is None),
{
    match decoded {
        Ok(payload) => Ok(crate::response::Response::new(payload, headers)),
        Err(cause) => Err(Error::new_own(cause, Kind::ParseError, Some(url), None, None)),
    }
}

/// Law: on an accepted status, the envelope a caller builds from what
/// `conclude` delivered carries the transport's headers exactly, and
/// the payload decoded from the delivered body unchanged.
pub proof fn lemma_success_envelope<T>(
    url: String,
    status: u16,
    hs: Headers,
    body: Option<String>,
    c: Conclusion,
    payload: T,
    r: crate::response::Response<T>,
)
    requires
        spec_is_success(status),
        call_ensures(conclude, (url, Exchange::Replied { status, headers: hs, body }), c),
        c matches Conclusion::Deliver { headers, body: delivered } && call_ensures(
            crate::response::Response::<T>::new,
            (payload, headers),
            r,
        ),
    ensures
        r.headers == hs,
        r.payload == payload,
{
}

/// Law: a client built with a token stamps that very token on every
/// request it prepares, and one built without a token stamps none.
pub proof fn lemma_token_carried(
    c: APIClient,
    path: Seq<char>,
    headers: Option<Headers>,
    method: Method,
    body: ReqBody,
    r: Result<RequestDescriptor, Error>,
)
    requires
        spec_prepared(c, path, headers, method, body, r),
    ensures
        r matches Ok(d) ==> d.bearer.deep_view() == c.access_token.deep_view(),
{
}

} // verus!
