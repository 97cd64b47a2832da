//! The decision gateway endpoint.

use vstd::prelude::*;

verus! {

/// The gateway's reply.
pub fn decision_gateway() -> (r: &'static str)
    ensures
        r == "hello world!",
{
    "hello world!"
}

} // verus!
