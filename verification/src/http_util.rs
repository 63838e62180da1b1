//! The request and response model shared by the clients, and the response
//! validator. The transport itself (performing the HTTP call) is the
//! caller's: it takes an [`HttpRequest`], performs it, and hands back an
//! [`HttpResponse`].

use vstd::prelude::*;
use crate::config::Credentials;
use crate::error::ApiError;

verus! {

/// The HTTP method of a request.
#[derive(Debug, Clone, Copy, PartialEq, Eq, Structural)]
pub enum Method {
    Get,
    Post,
}

/// Everything a transport needs to perform one call: method, URL, headers,
/// query-string parameters, an optional body, and optional HTTP basic-auth
/// credentials.
#[derive(Debug)]
pub struct HttpRequest {
    pub method: Method,
    pub url: String,
    pub headers: Vec<(String, String)>,
    pub query: Vec<(String, String)>,
    pub body: Option<String>,
    pub auth: Option<Credentials>,
}

/// A completed HTTP response: its status code and its body, read exactly
/// once by the transport.
#[derive(Debug)]
pub struct HttpResponse {
    pub status: u16,
    pub body: String,
}

/// Accepts only status 200, returning the response unchanged; any other
/// status is a terminal `RequestFailed` error carrying the exact body text
/// for diagnostics. Runs before any decoding is attempted. Never retries.
pub fn validate(resp: HttpResponse) -> (r: Result<HttpResponse, ApiError>)
    ensures
        resp.status == 200 ==> r == Ok::<HttpResponse, ApiError>(resp),
        resp.status != 200 ==> r == Err::<HttpResponse, ApiError>(
            ApiError::RequestFailed { status: resp.status, body: resp.body },
        ),
{
    if resp.status == 200 {
        Ok(resp)
    } else {
        Err(ApiError::RequestFailed { status: resp.status, body: resp.body })
    }
}

} // verus!
