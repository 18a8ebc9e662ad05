use vstd::prelude::*;

use crate::errors::AppError;

verus! {

/// Message for a route that does not exist.
pub const MSG_ROUTE_NOT_FOUND: &'static str = "Route not found";

/// The fallback response for a route that does not exist.
pub fn page_404() -> (e: AppError)
    ensures
        e matches AppError::NotFound(m) && m@ == MSG_ROUTE_NOT_FOUND@,
{
    AppError::NotFound(String::from_str(MSG_ROUTE_NOT_FOUND))
}

} // verus!
