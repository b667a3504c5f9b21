use vstd::prelude::*;
use vstd::string::*;

verus! {

/// Key layout for an external expiring key-value backend of the banned-token
/// store: tokens are namespaced under a fixed prefix so they cannot collide
/// with other data sharing that backend.
pub fn get_key(token: &str) -> (r: String)
    ensures
        r@ == "banned_token:"@ + token@,
{
    let mut s = String::from_str("banned_token:");
    s.append(token);
    s
}

} // verus!
