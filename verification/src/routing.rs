//! Dispatch of a request to one of the three handlers.
//!
//! A request is routed by exact path match: the root path and the health path
//! answer `GET` only, the callback path answers every method, and any other
//! path is unknown.

use crate::text::str_eq;
use vstd::prelude::*;

verus! {

/// Where a request goes: one of the three handlers, or one of the two
/// protocol-level refusals.
#[derive(Clone, Copy, Debug, PartialEq, Eq, Structural)]
pub enum Dispatch {
    Hello,
    Health,
    Callback,
    NotFound,
    MethodNotAllowed,
}

/// The routing rule, as a function of the request path and method.
pub open spec fn route_spec(path: Seq<char>, method: Seq<char>) -> Dispatch {
    if path == "/"@ {
        if method == "GET"@ {
            Dispatch::Hello
        } else {
            Dispatch::MethodNotAllowed
        }
    } else if path == "/health"@ {
        if method == "GET"@ {
            Dispatch::Health
        } else {
            Dispatch::MethodNotAllowed
        }
    } else if path == "/callback"@ {
        Dispatch::Callback
    } else {
        Dispatch::NotFound
    }
}

/// Routes one request.
pub fn route_of(path: &str, method: &str) -> (r: Dispatch)
    ensures
        r == route_spec(path@, method@),
{
    let is_get = str_eq(method, "GET");
    if str_eq(path, "/") {
        if is_get {
            Dispatch::Hello
        } else {
            Dispatch::MethodNotAllowed
        }
    } else if str_eq(path, "/health") {
        if is_get {
            Dispatch::Health
        } else {
            Dispatch::MethodNotAllowed
        }
    } else if str_eq(path, "/callback") {
        Dispatch::Callback
    } else {
        Dispatch::NotFound
    }
}

/// The HTTP status that each dispatch outcome answers with: the three
/// handlers always succeed, an unknown path is not found, and a known path
/// with the wrong method refuses the method.
pub fn response_status(d: Dispatch) -> (s: u16)
    ensures
        (d == Dispatch::Hello || d == Dispatch::Health || d == Dispatch::Callback) <==> s == 200,
        d == Dispatch::NotFound <==> s == 404,
        d == Dispatch::MethodNotAllowed <==> s == 405,
{
    match d {
        Dispatch::Hello => 200,
        Dispatch::Health => 200,
        Dispatch::Callback => 200,
        Dispatch::NotFound => 404,
        Dispatch::MethodNotAllowed => 405,
    }
}

} // verus!
