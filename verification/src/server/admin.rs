//! Admin API access control.
use vstd::prelude::*;

use crate::text::str_eq;

verus! {

/// A request reaches the admin API only with an `X-Admin-Token` header
/// equal to the configured admin token.
pub fn admin_authorized(header: Option<&str>, admin_token: &str) -> (ok: bool)
    ensures
        ok == (header matches Some(h) && h@ == admin_token@),
{
    match header {
        Some(h) => str_eq(h, admin_token),
        None => false,
    }
}

} // verus!
