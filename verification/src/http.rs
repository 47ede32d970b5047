//! Plain descriptions of outbound HTTP exchanges. The verified code builds
//! `HttpRequest` values and consumes `HttpReply` values; the embedding
//! application performs the transfers.

use vstd::prelude::*;
use crate::params::ParamValue;

verus! {

/// The HTTP method of a request.
#[derive(Debug, PartialEq, Eq, Structural, Clone, Copy)]
pub enum Method {
    Get,
    Post,
}

/// One outbound request: method, absolute URL, headers in order, and an
/// optional JSON body.
#[derive(Debug, PartialEq)]
pub struct HttpRequest {
    pub method: Method,
    pub url: String,
    pub headers: Vec<(String, String)>,
    pub body: Option<ParamValue>,
}

/// What came back: the status code, the raw response text, and the response
/// text parsed as a JSON document when it is one.
#[derive(Debug, PartialEq)]
pub struct HttpReply {
    pub status: u16,
    pub body_text: String,
    pub body_json: Option<ParamValue>,
}

/// A success status, as the HTTP client reports it.
pub open spec fn spec_is2xx(status: u16) -> bool {
    200 <= status < 300
}

/// Whether `status` lies in the 2xx range.
pub fn is2xx(status: u16) -> (r: bool)
    ensures
        r == spec_is2xx(status),
{
    200 <= status && status < 300
}

/// The header at position `i` of `r` is `name: value`.
pub open spec fn spec_header_is(headers: Seq<(String, String)>, i: int, name: Seq<char>, value: Seq<char>) -> bool {
    0 <= i < headers.len() && headers[i].0@ == name && headers[i].1@ == value
}

} // verus!
