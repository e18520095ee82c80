//! Assembling a REST call: the absolute URL, the query string (signed where
//! the endpoint asks for it) and the two fixed headers.
//!
//! Nothing here sends anything. A request is a plain value that the caller
//! hands to a transport, exactly once.

use vstd::prelude::*;
use vstd::string::*;
use crate::enums::{HttpVerb, Method};
use crate::error::{status_failure, APIError, BianResult, Failure};
use crate::query::{canonical, canonical_query, field_models, FieldModel, QueryField};
use crate::sign::{signed_query, signed_text};

verus! {

/// The error of the `url` crate for a text that is no URL. It is carried, never
/// looked into.
#[verifier::external_type_specification]
#[verifier::external_body]
pub struct ExUrlParseError(url::ParseError);

/// The serialization of the absolute URL that `input` parses to, `None` when
/// it is no absolute URL.
///
/// Parsing is done by the `url` crate; this name stands for what it returns.
pub uninterp spec fn url_parse(input: Seq<char>) -> Option<Seq<char>>;

/// The serialization of the URL that `reference` resolves to against the
/// absolute URL `base`, `None` when `base` is no absolute URL or the
/// reference cannot be resolved.
///
/// Resolving is done by the `url` crate; this name stands for what it
/// returns.
pub uninterp spec fn url_join(base: Seq<char>, reference: Seq<char>) -> Option<Seq<char>>;

/// Parses an absolute URL and returns its serialization.
///
/// Trusted: wraps `url::Url::parse`, which returns the parsed URL or, when
/// the text is no absolute URL, an error. The outcome depends on the text
/// alone.
#[verifier::external_body]
fn parse_url(input: &str) -> (res: Result<String, url::ParseError>)
    ensures
        match res {
            Ok(s) => url_parse(input@) == Some(s@),
            Err(_) => url_parse(input@) is None,
        },
{
    url::Url::parse(input).map(String::from)
}

/// Resolves a reference against a base URL and returns the serialization of
/// the result.
///
/// Trusted: wraps `url::Url::join` on the URL that `url::Url::parse` makes of
/// `base`. Either step returns an error when its text cannot be parsed. The
/// outcome depends on the two texts alone.
#[verifier::external_body]
fn join_url(base: &str, reference: &str) -> (res: Result<String, url::ParseError>)
    ensures
        match res {
            Ok(s) => url_join(base@, reference@) == Some(s@),
            Err(_) => url_join(base@, reference@) is None,
        },
{
    url::Url::parse(base)?.join(reference).map(String::from)
}

/// One header of a request.
#[derive(Debug, Clone)]
pub struct Header {
    pub name: String,
    pub value: String,
}

/// A REST call, ready to be sent.
#[derive(Debug, Clone)]
pub struct HttpRequest {
    pub verb: HttpVerb,
    /// The absolute URL, query string included.
    pub url: String,
    pub headers: Vec<Header>,
}

/// The names and values of a list of headers, in order.
pub open spec fn header_models(headers: Seq<Header>) -> Seq<(Seq<char>, Seq<char>)> {
    Seq::new(headers.len(), |i: int| (headers[i].name@, headers[i].value@))
}

/// The headers that every call carries: the content type, then the API key.
pub open spec fn fixed_headers(api_key: Seq<char>) -> Seq<(Seq<char>, Seq<char>)> {
    seq![("Content-Type"@, "application/json"@), ("X-MBX-APIKEY"@, api_key)]
}

/// The query string of a call: the canonical query string of its parameters,
/// with the signature appended when the call is signed.
pub open spec fn call_query_text(signed: bool, secret: Seq<char>, fields: Seq<FieldModel>) -> Seq<
    char,
> {
    if signed {
        signed_text(secret, canonical(fields))
    } else {
        canonical(fields)
    }
}

/// A resolved URL with a query string: the URL alone when the query is empty,
/// else the URL, `?` and the query.
pub open spec fn url_with_query(resolved: Seq<char>, query: Seq<char>) -> Seq<char> {
    if query.len() == 0 {
        resolved
    } else {
        resolved.push('?') + query
    }
}

/// What [`build_request`] owes for a call: the request for the resolved URL
/// when the path resolves against the base URL, and `InvalidUrl` with the
/// path when it does not.
pub open spec fn is_request_for(
    res: BianResult<HttpRequest>,
    base_url: Seq<char>,
    api_key: Seq<char>,
    secret_key: Seq<char>,
    method: Method,
    path: Seq<char>,
    fields: Seq<FieldModel>,
) -> bool {
    match res {
        Ok(r) => {
            &&& url_join(base_url, path) matches Some(resolved)
            &&& r.verb == method.spec_verb()
            &&& r.url@ == url_with_query(
                resolved,
                call_query_text(method.spec_is_signed(), secret_key, fields),
            )
            &&& header_models(r.headers@) == fixed_headers(api_key)
        },
        Err(e) => url_join(base_url, path) is None && e@ == Failure::InvalidUrl(path),
    }
}

/// Checks that `base_url` is an absolute URL and returns it in its serialized
/// form; fails with `InvalidUrl`, carrying the text, when it is not.
pub fn checked_base_url(base_url: &str) -> (res: BianResult<String>)
    ensures
        match res {
            Ok(s) => url_parse(base_url@) == Some(s@),
            Err(e) => url_parse(base_url@) is None && e@ == Failure::InvalidUrl(base_url@),
        },
{
    match parse_url(base_url) {
        Ok(s) => Ok(s),
        Err(_) => Err(APIError::InvalidUrl(String::from_str(base_url))),
    }
}

/// Resolves a relative path against the base URL; fails with `InvalidUrl`,
/// carrying the path, when the two do not make a URL.
pub fn resolve(base_url: &str, path: &str) -> (res: BianResult<String>)
    ensures
        match res {
            Ok(s) => url_join(base_url@, path@) == Some(s@),
            Err(e) => url_join(base_url@, path@) is None && e@ == Failure::InvalidUrl(path@),
        },
{
    match join_url(base_url, path) {
        Ok(s) => Ok(s),
        Err(_) => Err(APIError::InvalidUrl(String::from_str(path))),
    }
}

/// The query string of a call: the canonical query string of the parameters,
/// signed under the secret when `signed` is set.
pub fn call_query(signed: bool, secret_key: &str, fields: &Vec<QueryField>) -> (query: String)
    ensures
        query@ == call_query_text(signed, secret_key@, field_models(fields@)),
{
    let plain = canonical_query(fields);
    if signed {
        signed_query(secret_key, plain.as_str())
    } else {
        plain
    }
}

/// Attaches a query string to a resolved URL. An empty query leaves the URL
/// as it is, without a `?`.
pub fn attach_query(resolved: String, query: &str) -> (url: String)
    ensures
        url@ == url_with_query(resolved@, query@),
{
    if query.unicode_len() == 0 {
        resolved
    } else {
        let mut url = resolved;
        url.append("?");
        url.append(query);
        proof {
            reveal_strlit("?");
        }
        url
    }
}

/// The two headers that every call carries.
pub fn request_headers(api_key: &str) -> (headers: Vec<Header>)
    ensures
        header_models(headers@) == fixed_headers(api_key@),
{
    let mut headers: Vec<Header> = Vec::new();
    headers.push(
        Header {
            name: String::from_str("Content-Type"),
            value: String::from_str("application/json"),
        },
    );
    headers.push(
        Header { name: String::from_str("X-MBX-APIKEY"), value: String::from_str(api_key) },
    );
    headers
}

/// The request for a resolved URL: the verb of the method, the URL with the
/// call's query string, and the fixed headers.
pub fn request_to(
    resolved: String,
    api_key: &str,
    secret_key: &str,
    method: Method,
    fields: &Vec<QueryField>,
) -> (r: HttpRequest)
    ensures
        r.verb == method.spec_verb(),
        r.url@ == url_with_query(
            resolved@,
            call_query_text(method.spec_is_signed(), secret_key@, field_models(fields@)),
        ),
        header_models(r.headers@) == fixed_headers(api_key@),
{
    let query = call_query(method.is_signed(), secret_key, fields);
    HttpRequest {
        verb: method.verb(),
        url: attach_query(resolved, query.as_str()),
        headers: request_headers(api_key),
    }
}

/// Assembles the request of one call: resolves the path against the base URL,
/// renders the parameters, signs them when the method says so, and adds the
/// fixed headers.
pub fn build_request(
    base_url: &str,
    api_key: &str,
    secret_key: &str,
    method: Method,
    path: &str,
    fields: &Vec<QueryField>,
) -> (res: BianResult<HttpRequest>)
    ensures
        is_request_for(
            res,
            base_url@,
            api_key@,
            secret_key@,
            method,
            path@,
            field_models(fields@),
        ),
{
    match resolve(base_url, path) {
        Ok(resolved) => Ok(request_to(resolved, api_key, secret_key, method, fields)),
        Err(e) => Err(e),
    }
}

/// How the transport answered one call.
#[derive(Debug, Clone)]
pub enum Transport {
    /// An answer arrived, with its status code and body.
    Answered { status: u16, body: String },
    /// No answer arrived; carries the transport's message.
    Failed(String),
}

/// The mathematical content of a [`Transport`].
pub enum TransportModel {
    Answered { status: u16, body: Seq<char> },
    Failed(Seq<char>),
}

impl View for Transport {
    type V = TransportModel;

    open spec fn view(&self) -> TransportModel {
        match self {
            Transport::Answered { status, body } => TransportModel::Answered {
                status: *status,
                body: body@,
            },
            Transport::Failed(message) => TransportModel::Failed(message@),
        }
    }
}

/// The failure that the outcome of a call stands for, `None` when the call
/// succeeded: a request failure when no answer arrived, else what the status
/// code says.
pub open spec fn transport_failure(outcome: TransportModel) -> Option<Failure> {
    match outcome {
        TransportModel::Answered { status, body } => status_failure(status, body),
        TransportModel::Failed(message) => Some(Failure::Request(message)),
    }
}

/// Turns the outcome of a call into the body to decode or the failure to
/// report. The body is handed on only after the status code has been found
/// to be a success, so that the body of a failure is never decoded.
pub fn conclude(outcome: Transport) -> (res: Result<String, APIError>)
    ensures
        match res {
            Ok(text) => outcome@ matches TransportModel::Answered { status, body }
                && status_failure(status, body) is None && text@ == body,
            Err(e) => transport_failure(outcome@) == Some(e@),
        },
{
    match outcome {
        Transport::Answered { status, body } => APIError::check_resp(status, body),
        Transport::Failed(message) => Err(APIError::RequestError(message)),
    }
}

/// Turns what the decoder made of a body into the value or a decode failure
/// with the decoder's message.
pub fn decoded<T>(outcome: Result<T, String>) -> (res: BianResult<T>)
    ensures
        match res {
            Ok(value) => outcome == Ok::<T, String>(value),
            Err(e) => outcome matches Err(message) && e@ == Failure::Decode(message@),
        },
{
    match outcome {
        Ok(value) => Ok(value),
        Err(message) => Err(APIError::DecodeError(message)),
    }
}

} // verus!
