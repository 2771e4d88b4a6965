//! The rules of the outbound relay: which requests it forwards, and with what.
//!
//! Sending is the caller's business. This module only decides what is sent.

use vstd::prelude::*;
use vstd::string::StringExecFns;

verus! {

/// The request methods that the relay forwards.
#[derive(Clone, Copy, Debug, PartialEq, Eq, Structural)]
pub enum HttpMethod {
    Get,
    Post,
    Put,
    Delete,
}

/// A request that the relay is to send.
#[derive(Debug)]
pub struct RequestPlan {
    pub method: HttpMethod,
    pub url: String,
    pub body: Option<String>,
}

/// The upper-case form of a text: what `str::to_uppercase` returns.
pub uninterp spec fn uppercased(text: Seq<char>) -> Seq<char>;

/// `str::to_uppercase`: the upper-case equivalent of `text` as a new string.
#[verifier::external_body]
pub(crate) fn to_uppercase(text: &str) -> (upper: String)
    ensures
        upper@ == uppercased(text@),
{
    text.to_uppercase()
}

/// The method that an upper-case name stands for.
pub open spec fn method_written(upper: Seq<char>) -> Option<HttpMethod> {
    if upper == "GET"@ {
        Some(HttpMethod::Get)
    } else if upper == "POST"@ {
        Some(HttpMethod::Post)
    } else if upper == "PUT"@ {
        Some(HttpMethod::Put)
    } else if upper == "DELETE"@ {
        Some(HttpMethod::Delete)
    } else {
        None
    }
}

/// Requests of this method are sent with the body that the caller gave.
pub open spec fn carries_body(method: HttpMethod) -> bool {
    method == HttpMethod::Post || method == HttpMethod::Put
}

/// The body that goes out with a request of the given method.
pub open spec fn body_sent(method: HttpMethod, body: Option<String>) -> Option<String> {
    if carries_body(method) {
        body
    } else {
        None
    }
}

/// Finds the method that an upper-case name stands for.
pub fn method_of(upper: &String) -> (m: Option<HttpMethod>)
    ensures
        m == method_written(upper@),
{
    if *upper == String::from_str("GET") {
        Some(HttpMethod::Get)
    } else if *upper == String::from_str("POST") {
        Some(HttpMethod::Post)
    } else if *upper == String::from_str("PUT") {
        Some(HttpMethod::Put)
    } else if *upper == String::from_str("DELETE") {
        Some(HttpMethod::Delete)
    } else {
        None
    }
}

/// Decides what the relay sends for a request named by `method`, whose case
/// does not matter. A method other than GET, POST, PUT and DELETE is refused.
pub fn plan_request(url: String, method: &str, body: Option<String>) -> (res: Result<
    RequestPlan,
    String,
>)
    ensures
        match method_written(uppercased(method@)) {
            Some(m) => res matches Ok(plan) && plan.method == m && plan.url == url && plan.body
                == body_sent(m, body),
            None => res matches Err(message) && message@ == "Unsupported HTTP method"@,
        },
{
    let upper = to_uppercase(method);
    match method_of(&upper) {
        Some(HttpMethod::Post) => Ok(RequestPlan { method: HttpMethod::Post, url, body }),
        Some(HttpMethod::Put) => Ok(RequestPlan { method: HttpMethod::Put, url, body }),
        Some(m) => Ok(RequestPlan { method: m, url, body: None }),
        None => Err(String::from_str("Unsupported HTTP method")),
    }
}

/// A response with this status code is handed to the caller; any other is an
/// error. The codes from 200 to 299 say that the request succeeded.
pub open spec fn succeeded(status: u16) -> bool {
    200 <= status < 300
}

/// Tells whether a response with this status code is handed to the caller.
pub fn is_success(status: u16) -> (b: bool)
    ensures
        b == succeeded(status),
{
    200 <= status && status < 300
}

} // verus!
