//! Connectivity probing decisions.
//!
//! A probe is one HTTP request against a well-known endpoint that is
//! expected to answer status 204 with an empty body.  The request is
//! the application's outside work; judging the response, and judging a
//! finished series of attempts as a standalone diagnostic, happens
//! here.  The bounded retry behaviour of a start sequence lives in the
//! supervisor's probe transitions.

use vstd::prelude::*;

verus! {

/// The status the probe endpoint is expected to answer.
pub const PROBE_EXPECTED_STATUS: u16 = 204;

/// At least one attempt of the series succeeded.
pub open spec fn any_success(attempts: Seq<bool>) -> bool {
    exists|i: int| 0 <= i < attempts.len() && attempts[i]
}

/// Judge one probe response: reachable exactly when the endpoint
/// answered 204 with an empty body.
pub fn probe_response_ok(status: u16, body_len: usize) -> (r: bool)
    ensures
        r == (status == PROBE_EXPECTED_STATUS && body_len == 0),
{
    status == PROBE_EXPECTED_STATUS && body_len == 0
}

/// Judge a finished series of attempts: the index of the first
/// success, or `None` when every attempt failed.
pub fn first_success(attempts: &Vec<bool>) -> (r: Option<usize>)
    ensures
        r matches Some(i) ==> 0 <= i < attempts@.len() && attempts@[i as int] && forall|j: int|
            0 <= j < i ==> !attempts@[j],
        r is None <==> !any_success(attempts@),
{
    let n = attempts.len();
    let mut i: usize = 0;
    while i < n
        invariant
            n == attempts@.len(),
            0 <= i <= n,
            forall|j: int| 0 <= j < i ==> !attempts@[j],
        decreases n - i,
    {
        if attempts[i] {
            return Option::Some(i);
        }
        i += 1;
    }
    Option::None
}

} // verus!
