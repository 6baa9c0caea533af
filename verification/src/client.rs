//! The HTTP client wrapper. It owns the base URL and the bearer token and
//! turns an endpoint descriptor plus an optional JSON body into a fully
//! prepared request: the verb, the absolute URL and the `Authorization`
//! header value. A transport executes the prepared request and hands the
//! status code and decoded body back to `interpret_response`.

use vstd::prelude::*;

use crate::endpoints::Endpoint;
use crate::json::JsonValue;
use crate::FleetbaseError;

verus! {

/// The HTTP verbs the API is driven with.
#[derive(Debug, Clone, Copy, PartialEq, Eq, Structural)]
pub enum HttpMethod {
    Get,
    Post,
    Put,
    Delete,
}

/// One fully described HTTP request: everything a transport needs to issue
/// it, and nothing it has to compute itself.
#[derive(Debug)]
pub struct PreparedRequest {
    pub method: HttpMethod,
    pub url: String,
    /// The complete `Authorization` header value, `Bearer <token>`.
    pub authorization: String,
    /// Query-string parameters, handed to the transport unencoded.
    pub query: Vec<(String, String)>,
    /// The JSON payload, absent for body-less requests.
    pub body: Option<JsonValue>,
}

/// The authenticated client: a base URL and a bearer token, both set once at
/// construction and immutable thereafter.
#[derive(Debug)]
pub struct FleetbaseClient {
    pub base_url: String,
    pub token: String,
}

impl FleetbaseClient {
    /// The value carried by the `Authorization` header on every request.
    pub open spec fn auth_header_spec(self) -> Seq<char> {
        "Bearer "@ + self.token@
    }

    /// The absolute URL of an endpoint: the base URL followed by the
    /// rendered path.
    pub open spec fn url_spec(self, endpoint: Endpoint) -> Seq<char> {
        self.base_url@ + endpoint.path_spec()
    }

    pub fn new_with_base_url(token: String, base_url: String) -> (r: Self)
        ensures
            r.token@ == token@,
            r.base_url@ == base_url@,
    {
        FleetbaseClient { base_url, token }
    }

    /// A second handle onto the same remote: same base URL, same token.
    pub fn duplicate(&self) -> (r: Self)
        ensures
            r.token@ == self.token@,
            r.base_url@ == self.base_url@,
    {
        FleetbaseClient { base_url: self.base_url.clone(), token: self.token.clone() }
    }

    /// Prepares one request against `endpoint`: renders the path, prefixes
    /// the base URL and attaches the bearer token.
    pub fn request(&self, method: HttpMethod, endpoint: &Endpoint, body: Option<JsonValue>) -> (r:
        PreparedRequest)
        ensures
            r.method == method,
            r.url@ == self.url_spec(*endpoint),
            r.authorization@ == self.auth_header_spec(),
            r.query@.len() == 0,
            r.body == body,
    {
        let path = endpoint.to_string();
        self.request_path(method, path.as_str(), Vec::new(), body)
    }

    /// Prepares one request against a raw path below the base URL, with
    /// explicit query parameters; the action sets build their sub-resource
    /// paths through this.
    pub fn request_path(
        &self,
        method: HttpMethod,
        path: &str,
        query: Vec<(String, String)>,
        body: Option<JsonValue>,
    ) -> (r: PreparedRequest)
        ensures
            r.method == method,
            r.url@ == self.base_url@ + path@,
            r.authorization@ == self.auth_header_spec(),
            r.query == query,
            r.body == body,
    {
        let mut url = self.base_url.clone();
        url.append(path);
        let mut authorization = "Bearer ".to_owned();
        authorization.append(self.token.as_str());
        PreparedRequest { method, url, authorization, query, body }
    }

    /// Prepares a request whose path is `<p1><p2>` below the base URL.
    pub fn request_join2(
        &self,
        method: HttpMethod,
        p1: &str,
        p2: &str,
        query: Vec<(String, String)>,
        body: Option<JsonValue>,
    ) -> (r: PreparedRequest)
        ensures
            r.method == method,
            r.url@ == self.base_url@ + p1@ + p2@,
            r.authorization@ == self.auth_header_spec(),
            r.query == query,
            r.body == body,
    {
        let mut url = self.base_url.clone();
        url.append(p1);
        url.append(p2);
        let mut authorization = "Bearer ".to_owned();
        authorization.append(self.token.as_str());
        PreparedRequest { method, url, authorization, query, body }
    }

    /// Prepares a request whose path is `<p1><p2><p3>` below the base URL.
    pub fn request_join3(
        &self,
        method: HttpMethod,
        p1: &str,
        p2: &str,
        p3: &str,
        query: Vec<(String, String)>,
        body: Option<JsonValue>,
    ) -> (r: PreparedRequest)
        ensures
            r.method == method,
            r.url@ == self.base_url@ + p1@ + p2@ + p3@,
            r.authorization@ == self.auth_header_spec(),
            r.query == query,
            r.body == body,
    {
        let mut url = self.base_url.clone();
        url.append(p1);
        url.append(p2);
        url.append(p3);
        let mut authorization = "Bearer ".to_owned();
        authorization.append(self.token.as_str());
        PreparedRequest { method, url, authorization, query, body }
    }

    /// Prepares a request whose path is `<p1><p2><p3><p4>` below the base
    /// URL.
    pub fn request_join4(
        &self,
        method: HttpMethod,
        p1: &str,
        p2: &str,
        p3: &str,
        p4: &str,
        query: Vec<(String, String)>,
        body: Option<JsonValue>,
    ) -> (r: PreparedRequest)
        ensures
            r.method == method,
            r.url@ == self.base_url@ + p1@ + p2@ + p3@ + p4@,
            r.authorization@ == self.auth_header_spec(),
            r.query == query,
            r.body == body,
    {
        let mut url = self.base_url.clone();
        url.append(p1);
        url.append(p2);
        url.append(p3);
        url.append(p4);
        let mut authorization = "Bearer ".to_owned();
        authorization.append(self.token.as_str());
        PreparedRequest { method, url, authorization, query, body }
    }

    /// Prepares a request whose path is `<p1><p2><p3><p4><p5>` below the
    /// base URL.
    pub fn request_join5(
        &self,
        method: HttpMethod,
        p1: &str,
        p2: &str,
        p3: &str,
        p4: &str,
        p5: &str,
        query: Vec<(String, String)>,
        body: Option<JsonValue>,
    ) -> (r: PreparedRequest)
        ensures
            r.method == method,
            r.url@ == self.base_url@ + p1@ + p2@ + p3@ + p4@ + p5@,
            r.authorization@ == self.auth_header_spec(),
            r.query == query,
            r.body == body,
    {
        let mut url = self.base_url.clone();
        url.append(p1);
        url.append(p2);
        url.append(p3);
        url.append(p4);
        url.append(p5);
        let mut authorization = "Bearer ".to_owned();
        authorization.append(self.token.as_str());
        PreparedRequest { method, url, authorization, query, body }
    }

    pub fn get(&self, endpoint: &Endpoint) -> (r: PreparedRequest)
        ensures
            r.method == HttpMethod::Get,
            r.url@ == self.url_spec(*endpoint),
            r.authorization@ == self.auth_header_spec(),
            r.query@.len() == 0,
            r.body is None,
    {
        self.request(HttpMethod::Get, endpoint, None)
    }

    pub fn post(&self, endpoint: &Endpoint, body: JsonValue) -> (r: PreparedRequest)
        ensures
            r.method == HttpMethod::Post,
            r.url@ == self.url_spec(*endpoint),
            r.authorization@ == self.auth_header_spec(),
            r.query@.len() == 0,
            r.body == Some(body),
    {
        self.request(HttpMethod::Post, endpoint, Some(body))
    }

    pub fn put(&self, endpoint: &Endpoint, body: JsonValue) -> (r: PreparedRequest)
        ensures
            r.method == HttpMethod::Put,
            r.url@ == self.url_spec(*endpoint),
            r.authorization@ == self.auth_header_spec(),
            r.query@.len() == 0,
            r.body == Some(body),
    {
        self.request(HttpMethod::Put, endpoint, Some(body))
    }

    pub fn delete(&self, endpoint: &Endpoint) -> (r: PreparedRequest)
        ensures
            r.method == HttpMethod::Delete,
            r.url@ == self.url_spec(*endpoint),
            r.authorization@ == self.auth_header_spec(),
            r.query@.len() == 0,
            r.body is None,
    {
        self.request(HttpMethod::Delete, endpoint, None)
    }
}

/// True exactly for the success status range.
pub open spec fn is_success_status(status: u16) -> bool {
    200 <= status < 300
}

/// Classifies a finished exchange. Any non-success status is a hard
/// `HttpStatusError`, whatever the body held; a success status whose body
/// did not decode as JSON is a `DecodeError`; otherwise the decoded body is
/// handed through unchanged.
pub fn interpret_response(status: u16, body: Option<JsonValue>) -> (r: Result<
    JsonValue,
    FleetbaseError,
>)
    ensures
        !is_success_status(status) ==> r == Err::<JsonValue, FleetbaseError>(
            FleetbaseError::HttpStatusError(status),
        ),
        is_success_status(status) && body is None ==> r == Err::<JsonValue, FleetbaseError>(
            FleetbaseError::DecodeError,
        ),
        is_success_status(status) && body is Some ==> r == Ok::<JsonValue, FleetbaseError>(
            body.unwrap(),
        ),
{
    if status < 200 || status >= 300 {
        Err(FleetbaseError::HttpStatusError(status))
    } else {
        match body {
            Some(v) => Ok(v),
            None => Err(FleetbaseError::DecodeError),
        }
    }
}

} // verus!
