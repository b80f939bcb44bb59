use vstd::prelude::*;

verus! {

/// The methods of the requests that the library asks its caller to send.
#[derive(Clone, Copy, Debug, PartialEq, Eq, Structural)]
pub enum HttpMethod {
    Get,
    Post,
    Delete,
}

/// One request header.
#[derive(Clone, Debug, PartialEq, Eq)]
pub struct Header {
    pub name: String,
    pub value: String,
}

/// A request, as plain values, for the caller to send.
#[derive(Clone, Debug, PartialEq, Eq)]
pub struct HttpRequest {
    pub method: HttpMethod,
    pub url: String,
    pub headers: Vec<Header>,
    /// A JSON body, sent with `Content-Type: application/json`.
    pub body: Option<String>,
    /// The time limit of the request, in seconds, where it has one.
    pub timeout_secs: Option<u64>,
}

/// What came of sending a request.
#[derive(Clone, Debug, PartialEq, Eq)]
pub enum HttpOutcome {
    /// The server answered with this status and body.
    Reply { status: u16, body: String },
    /// The request ran past its time limit.
    TimedOut,
    /// The request failed in transport, with this cause.
    Failed(String),
}

/// True of the statuses that report success.
pub open spec fn is_success_status(status: u16) -> bool {
    200 <= status < 300
}

pub fn status_is_success(status: u16) -> (r: bool)
    ensures
        r == is_success_status(status),
{
    200 <= status && status < 300
}

pub fn header(name: &str, value: &str) -> (r: Header)
    ensures
        r.name@ == name@,
        r.value@ == value@,
{
    Header { name: name.to_owned(), value: value.to_owned() }
}

} // verus!
