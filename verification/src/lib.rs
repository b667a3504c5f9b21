pub mod domain;
pub mod laws;
pub mod routes;
pub mod services;
pub mod utils;

use vstd::prelude::*;

verus! {

/// JSON error body that the boundary layer sends for every failed request.
pub struct ErrorResponse {
    pub error: String,
}

} // verus!
