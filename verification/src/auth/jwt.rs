//! The claims that a token is issued with.
use vstd::prelude::*;
use vstd::string::*;
use crate::models::Claims;

verus! {

pub const SECONDS_PER_HOUR: u64 = 3600;

/// The instant, in seconds, at which a token issued at `now_secs` for
/// `exp_hours` hours runs out.
pub open spec fn expiry(now_secs: nat, exp_hours: nat) -> nat {
    now_secs + exp_hours * (SECONDS_PER_HOUR as nat)
}

/// The claims of a token issued at `now_secs` seconds to `user_id` under
/// `role` with `permissions`, good for `exp_hours` hours.
pub fn token_claims(
    user_id: &str,
    role: &str,
    permissions: Vec<String>,
    now_secs: u64,
    exp_hours: u64,
) -> (claims: Claims)
    requires
        expiry(now_secs as nat, exp_hours as nat) <= usize::MAX,
    ensures
        claims.sub@ == user_id@,
        claims.role@ == role@,
        claims.permissions == permissions,
        claims.exp == expiry(now_secs as nat, exp_hours as nat),
{
    assert(exp_hours * SECONDS_PER_HOUR <= usize::MAX) by (nonlinear_arith)
        requires
            now_secs + exp_hours * SECONDS_PER_HOUR <= usize::MAX,
    ;
    let exp: u64 = now_secs + exp_hours * SECONDS_PER_HOUR;
    Claims {
        sub: String::from_str(user_id),
        exp: exp as usize,
        role: String::from_str(role),
        permissions,
    }
}

} // verus!
