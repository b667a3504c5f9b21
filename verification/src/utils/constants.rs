use vstd::prelude::*;

verus! {

/// Lifetime of a session token in seconds. The banned-token retention window
/// equals it, so a banned record never has to outlive the token's own expiry.
pub const TOKEN_TTL_SECONDS: u64 = 600;

/// Name of the HTTP-only session cookie.
pub open spec fn spec_jwt_cookie_name() -> Seq<char> {
    "jwt"@
}

pub fn jwt_cookie_name() -> (r: &'static str)
    ensures
        r@ == spec_jwt_cookie_name(),
{
    "jwt"
}

} // verus!
