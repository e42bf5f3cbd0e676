//! A small HTTP callback listener, verified.
//!
//! The library holds everything the server decides and renders: routing of a
//! request path and method to one of three handlers, the three JSON response
//! bodies, and the log record that the callback handler emits for each
//! request. The surrounding binary only moves bytes between the network and
//! these functions.

pub mod callback;
pub mod clock;
pub mod json;
pub mod responses;
pub mod routing;
pub mod text;

use vstd::prelude::*;

verus! {

/// The build version that the health endpoint reports.
pub fn version() -> (v: &'static str)
    ensures
        v@ == "0.1.0"@,
        v@.len() > 0,
{
    proof {
        reveal_strlit("0.1.0");
    }
    "0.1.0"
}

} // verus!
