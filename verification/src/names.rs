//! Small closed vocabularies shared by several handlers.
use vstd::prelude::*;
use crate::text::str_eq;

verus! {

/// The three wallet currencies.
pub open spec fn spec_wallet_currency(s: Seq<char>) -> bool {
    s == "high"@ || s == "soft"@ || s == "energy"@
}

/// Whether `s` names a wallet currency: `high`, `soft` or `energy`.
pub fn is_wallet_currency(s: &str) -> (r: bool)
    ensures
        r == spec_wallet_currency(s@),
{
    str_eq(s, "high") || str_eq(s, "soft") || str_eq(s, "energy")
}

} // verus!
