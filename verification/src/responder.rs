//! The computed part of the one HTTP route: the text body answered to a GET,
//! built from the request's query string (or from the empty string when the
//! request carries none).

use vstd::prelude::*;

verus! {

/// The body of the route's response: the fixed greeting, then the query
/// string as it came.
pub fn greeting_body(query: &str) -> (body: String)
    ensures
        body@ == "Lmao nice: "@ + query@,
{
    let mut body = String::from_str("Lmao nice: ");
    body.append(query);
    body
}

} // verus!
