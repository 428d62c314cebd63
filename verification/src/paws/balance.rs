//! `/paw balance`: how many paws the user holds.
use vstd::prelude::*;
use crate::ledger::{paws_or_zero, stored_paws};
use crate::text::{decimal, push_int};

verus! {

/// The answer to `/paw balance` for `paws` paws.
pub open spec fn balance_text(paws: int) -> Seq<char> {
    "You have "@ + decimal(paws) + " paws!"@
}

/// The answer for the user's balance row `stored`; a user without a row
/// holds no paws.
pub fn balance_message(stored: Option<i32>) -> (msg: String)
    ensures
        msg@ == balance_text(stored_paws(stored)),
{
    let paws = paws_or_zero(stored);
    let mut s = String::new();
    s.append("You have ");
    push_int(&mut s, paws as i64);
    s.append(" paws!");
    assert(s@ =~= balance_text(stored_paws(stored)));
    s
}

} // verus!
