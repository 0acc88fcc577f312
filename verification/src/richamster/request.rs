//! A request that is ready to be sent, and the plan of a call: the request
//! together with the table by which its response is read.

use vstd::prelude::*;
use vstd::utf8::encode_utf8;
use url::{ParseError, Url};
use crate::api::address::{join_url, pairs_fit, url_joined, url_text, with_pairs};
use crate::api::{Api, Method, RequestData, RequestPath};
use crate::errors::RichamsterError;
use crate::richamster::common::{header_views, AuthState, Header, HeaderCompose};
use crate::richamster::response::{Outcome, StatusTable, UNAUTHORIZED};

verus! {

/// What is sent to the exchange: the method, the address, the headers in
/// their order, and the body if there is one.
#[derive(Debug, Clone)]
pub struct Request {
    pub method: Method,
    pub url: String,
    pub headers: Vec<Header>,
    pub body: Option<String>,
}

/// The plan of a call: what to send, and how to read what comes back.
#[derive(Debug)]
pub struct Call {
    pub request: Request,
    pub outcomes: StatusTable,
}

/// The header that announces a body in JSON.
pub open spec fn content_type() -> (Seq<char>, Seq<char>) {
    ("Content-Type"@, "application/json"@)
}

/// The headers of a request: the proof of identity over the body, after the
/// announcement of the body where there is one.
pub open spec fn request_headers(auth: AuthState, body: Option<Seq<char>>) -> Seq<
    (Seq<char>, Seq<char>),
> {
    match body {
        Some(text) => seq![content_type()] + auth.headers(encode_utf8(text)),
        None => auth.headers(Seq::empty()),
    }
}

/// The table of an endpoint that knows success and nothing else of its own.
pub open spec fn standard_outcomes() -> Map<u16, Outcome> {
    map![UNAUTHORIZED => Outcome::Unauthorized, 200u16 => Outcome::Success]
}

/// The address of a call: the endpoint's address, the reference resolved
/// against it where there is one, and the query added to that. An address
/// that would outgrow the `url` crate's positions is its `Overflow`.
pub open spec fn target(
    api: Api,
    reference: Option<Seq<char>>,
    query: Seq<(Seq<char>, Seq<char>)>,
) -> Result<Seq<char>, ParseError> {
    match api.address() {
        Err(e) => Err(e),
        Ok(endpoint) => {
            let joined = match reference {
                Some(reference) => url_joined(endpoint, reference),
                None => Ok(endpoint),
            };
            match joined {
                Err(e) => Err(e),
                Ok(address) => if pairs_fit(address, query) {
                    Ok(with_pairs(address, query))
                } else {
                    Err(ParseError::Overflow)
                },
            }
        },
    }
}

/// That `planned` is the plan of the call to `address` with the given
/// method, identity, body and table, or the failure to form the address.
pub open spec fn plans(
    planned: Result<Call, RichamsterError>,
    address: Result<Seq<char>, ParseError>,
    method: Method,
    auth: AuthState,
    body: Option<Seq<char>>,
    outcomes: Map<u16, Outcome>,
) -> bool {
    match address {
        Err(e) => planned == Err::<Call, RichamsterError>(RichamsterError::UrlParse(e)),
        Ok(url) => {
            &&& planned matches Ok(call)
            &&& call.request.method == method
            &&& call.request.url@ == url
            &&& header_views(call.request.headers@) == request_headers(auth, body)
            &&& match body {
                Some(text) => call.request.body matches Some(sent) && sent@ == text,
                None => call.request.body is None,
            }
            &&& call.outcomes@ == outcomes
        },
    }
}

impl Request {
    /// A request without headers and without a body.
    pub fn new(url: String, method: Method) -> (request: Request)
        ensures
            request.method == method,
            request.url == url,
            request.headers@.len() == 0,
            request.body is None,
    {
        Request { method, url, headers: Vec::new(), body: None }
    }

    /// A request whose body is `payload`, announced as JSON.
    pub fn with_json(url: String, method: Method, payload: String) -> (request: Request)
        ensures
            request.method == method,
            request.url == url,
            header_views(request.headers@) == seq![content_type()],
            request.body == Some(payload),
    {
        let mut headers: Vec<Header> = Vec::new();
        headers.push(
            Header { name: "Content-Type".to_owned(), value: "application/json".to_owned() },
        );
        assert(header_views(headers@) =~= seq![content_type()]);
        Request { method, url, headers, body: Some(payload) }
    }
}

impl StatusTable {
    /// The table of an endpoint that knows success and nothing else of its
    /// own.
    pub fn standard() -> (table: StatusTable)
        ensures
            table@ == standard_outcomes(),
    {
        let table = StatusTable::new().with(200, Outcome::Success);
        assert(table@ =~= standard_outcomes());
        table
    }
}

/// The endpoint's address and method.
pub fn endpoint(api: Api) -> (data: Result<RequestData, RichamsterError>)
    ensures
        match data {
            Ok(found) => api.address() == Ok::<Seq<char>, ParseError>(url_text(found.0))
                && found.1 == api.method(),
            Err(e) => api.address() matches Err(p) && e == RichamsterError::UrlParse(p),
        },
{
    match api.request_data() {
        Ok(found) => Ok(found),
        Err(e) => Err(RichamsterError::UrlParse(e)),
    }
}

/// The address that `reference` resolves to against `base`.
pub fn resolve(base: &Url, reference: &str) -> (resolved: Result<Url, RichamsterError>)
    ensures
        match resolved {
            Ok(url) => url_joined(url_text(*base), reference@) == Ok::<Seq<char>, ParseError>(
                url_text(url),
            ),
            Err(e) => url_joined(url_text(*base), reference@) matches Err(p) && e
                == RichamsterError::UrlParse(p),
        },
{
    match join_url(base, reference) {
        Ok(url) => Ok(url),
        Err(e) => Err(RichamsterError::UrlParse(e)),
    }
}

impl Call {
    /// The plan of a call without a body.
    pub fn signed(url: String, method: Method, auth_state: &AuthState, outcomes: StatusTable) -> (call: Call)
        ensures
            call.request.method == method,
            call.request.url == url,
            call.request.body is None,
            header_views(call.request.headers@) == request_headers(*auth_state, None),
            call.outcomes == outcomes,
    {
        let request = Request::new(url, method);
        assert(header_views(request.headers@) =~= Seq::empty());
        let request = request.compose(auth_state);
        assert(header_views(request.headers@) =~= request_headers(*auth_state, None));
        Call { request, outcomes }
    }

    /// The plan of a call whose body is `payload`.
    pub fn signed_with_body(
        url: String,
        method: Method,
        auth_state: &AuthState,
        payload: String,
        outcomes: StatusTable,
    ) -> (call: Call)
        ensures
            call.request.method == method,
            call.request.url == url,
            call.request.body matches Some(sent) && sent@ == payload@,
            header_views(call.request.headers@) == request_headers(*auth_state, Some(payload@)),
            call.outcomes == outcomes,
    {
        let request = Request::with_json(url, method, payload.clone());
        let request = request.compose_with_payload(auth_state, payload.as_str());
        Call { request, outcomes }
    }
}

} // verus!
