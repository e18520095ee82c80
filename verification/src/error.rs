//! The failure taxonomy of the client and the classification of an HTTP
//! status code into it.

use vstd::prelude::*;
use vstd::string::*;

verus! {

/// What every fallible operation of the client returns.
pub type BianResult<T> = Result<T, APIError>;

/// The closed set of failures a caller can observe.
#[derive(Debug)]
pub enum APIError {
    /// A 4xx answer that no more specific variant covers; carries the body.
    ClientSideError(String),
    /// 403: the request was blocked by the edge protection.
    WAFLimit,
    /// 429: the caller is close to the rate limit.
    FreqWarning,
    /// 418: the caller has been banned for ignoring rate limits.
    Banned,
    /// A 5xx answer; carries the body.
    ServerSideError(String),
    /// The transport failed before an answer arrived; carries its message.
    RequestError(String),
    /// The body of a successful answer did not have the expected shape.
    DecodeError(String),
    /// The configured endpoint, or a path resolved against it, is no URL.
    InvalidUrl(String),
    /// Any other answer that is no success; carries the body.
    Unknown(String),
    /// The WebSocket handshake failed.
    WSConnectError(String),
    /// The WebSocket failed after the handshake.
    WSClientError(String),
}

/// The mathematical content of an [`APIError`].
pub enum Failure {
    ClientSide(Seq<char>),
    WafLimit,
    FreqWarning,
    Banned,
    ServerSide(Seq<char>),
    Request(Seq<char>),
    Decode(Seq<char>),
    InvalidUrl(Seq<char>),
    Unknown(Seq<char>),
    WsConnect(Seq<char>),
    WsClient(Seq<char>),
}

impl View for APIError {
    type V = Failure;

    open spec fn view(&self) -> Failure {
        match self {
            APIError::ClientSideError(s) => Failure::ClientSide(s@),
            APIError::WAFLimit => Failure::WafLimit,
            APIError::FreqWarning => Failure::FreqWarning,
            APIError::Banned => Failure::Banned,
            APIError::ServerSideError(s) => Failure::ServerSide(s@),
            APIError::RequestError(s) => Failure::Request(s@),
            APIError::DecodeError(s) => Failure::Decode(s@),
            APIError::InvalidUrl(s) => Failure::InvalidUrl(s@),
            APIError::Unknown(s) => Failure::Unknown(s@),
            APIError::WSConnectError(s) => Failure::WsConnect(s@),
            APIError::WSClientError(s) => Failure::WsClient(s@),
        }
    }
}

/// The failure that a status code and body stand for, `None` for a success.
///
/// Codes below 300 succeed. 403, 429 and 418 have a variant of their own and
/// drop the body. Any other code from 500 up is a server-side failure, any
/// other code from 400 up a client-side one, and what is left (300 to 399) is
/// unknown.
pub open spec fn status_failure(status: u16, body: Seq<char>) -> Option<Failure> {
    if status < 300 {
        None
    } else if status == 403 {
        Some(Failure::WafLimit)
    } else if status == 429 {
        Some(Failure::FreqWarning)
    } else if status == 418 {
        Some(Failure::Banned)
    } else if status >= 500 {
        Some(Failure::ServerSide(body))
    } else if status >= 400 {
        Some(Failure::ClientSide(body))
    } else {
        Some(Failure::Unknown(body))
    }
}

/// The text that [`APIError::message`] renders for a failure.
pub open spec fn failure_text(f: Failure) -> Seq<char> {
    match f {
        Failure::ClientSide(s) => "4xx client side error "@ + s,
        Failure::WafLimit => "403 hit web application firewall(waf)"@,
        Failure::FreqWarning => "429 frequency warning"@,
        Failure::Banned => "418 banned by api"@,
        Failure::ServerSide(s) => "server side error "@ + s,
        Failure::Request(s) => "request error "@ + s,
        Failure::Decode(s) => "decode response body error "@ + s,
        Failure::InvalidUrl(s) => "invalid url "@ + s,
        Failure::Unknown(s) => "unknown "@ + s,
        Failure::WsConnect(s) => "websocket connect error "@ + s,
        Failure::WsClient(s) => "websocket client error "@ + s,
    }
}

impl APIError {
    /// Lets an answer through when its status code is a success, and turns it
    /// into the matching failure otherwise. The body comes back unchanged on
    /// success, so that decoding only ever sees the body of a success.
    pub fn check_resp(status: u16, body: String) -> (res: Result<String, APIError>)
        ensures
            match res {
                Ok(b) => status_failure(status, body@) is None && b@ == body@,
                Err(e) => status_failure(status, body@) == Some(e@),
            },
    {
        if status < 300 {
            Ok(body)
        } else if status == 403 {
            Err(APIError::WAFLimit)
        } else if status == 429 {
            Err(APIError::FreqWarning)
        } else if status == 418 {
            Err(APIError::Banned)
        } else if status >= 500 {
            Err(APIError::ServerSideError(body))
        } else if status >= 400 {
            Err(APIError::ClientSideError(body))
        } else {
            Err(APIError::Unknown(body))
        }
    }

    /// A failure to decode a body, from the decoder's message.
    pub fn decode_failure(message: String) -> (e: APIError)
        ensures
            e@ == Failure::Decode(message@),
    {
        APIError::DecodeError(message)
    }

    /// The human-readable line for this failure.
    pub fn message(&self) -> (text: String)
        ensures
            text@ == failure_text(self@),
    {
        match self {
            APIError::ClientSideError(s) => String::from_str("4xx client side error ").concat(
                s.as_str(),
            ),
            APIError::WAFLimit => String::from_str("403 hit web application firewall(waf)"),
            APIError::FreqWarning => String::from_str("429 frequency warning"),
            APIError::Banned => String::from_str("418 banned by api"),
            APIError::ServerSideError(s) => String::from_str("server side error ").concat(
                s.as_str(),
            ),
            APIError::RequestError(s) => String::from_str("request error ").concat(s.as_str()),
            APIError::DecodeError(s) => String::from_str("decode response body error ").concat(
                s.as_str(),
            ),
            APIError::InvalidUrl(s) => String::from_str("invalid url ").concat(s.as_str()),
            APIError::Unknown(s) => String::from_str("unknown ").concat(s.as_str()),
            APIError::WSConnectError(s) => String::from_str("websocket connect error ").concat(
                s.as_str(),
            ),
            APIError::WSClientError(s) => String::from_str("websocket client error ").concat(
                s.as_str(),
            ),
        }
    }
}

} // verus!
