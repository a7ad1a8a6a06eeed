use vstd::prelude::*;

pub mod auth;
pub mod memo;
pub mod resource;
pub mod store;

use crate::text::push_str;

verus! {

broadcast use vstd::string::group_string_axioms;

/// The JSON body of an error response: `status` is the status line (such as
/// `401 Unauthorized`), `message` what went wrong.
pub fn error_body(status: &str, message: &str) -> (r: String)
    ensures
        r@ == "{\"error\": \"code="@ + status@ + ", message="@ + message@ + "\", \"message\": \""@ + message@
            + "\"}"@,
{
    let mut r = String::new();
    push_str(&mut r, "{\"error\": \"code=");
    push_str(&mut r, status);
    push_str(&mut r, ", message=");
    push_str(&mut r, message);
    push_str(&mut r, "\", \"message\": \"");
    push_str(&mut r, message);
    push_str(&mut r, "\"}");
    r
}

} // verus!
