//! The table of paw balances and the writes that commands make to it.
//!
//! A balance table maps a user id to the number of paws the user holds; a
//! user without a row holds no paws. Each write below is one statement that
//! the bot runs against the table; `apply_write` says what it does.
use vstd::prelude::*;

verus! {

/// One change to the table of paw balances.
#[derive(Clone, Copy, Debug, PartialEq, Eq, Structural)]
pub enum BalanceWrite {
    /// Adds `amount` to the user's balance, opening a balance of `amount`
    /// when the user has no row yet.
    Deposit { user: i64, amount: i32 },
    /// Subtracts `amount` from the user's balance; a user without a row is
    /// left without one.
    Withdraw { user: i64, amount: i32 },
    /// Adds `amount` to the user's balance; a user without a row is left
    /// without one.
    Increase { user: i64, amount: i32 },
    /// Replaces the user's balance by `amount`; a user without a row is left
    /// without one.
    Assign { user: i64, amount: i32 },
}

/// The paws that `user` holds in the table `b`: its row, or 0 without one.
pub open spec fn held(b: Map<i64, int>, user: i64) -> int {
    if b.contains_key(user) {
        b[user]
    } else {
        0
    }
}

/// The paws that a balance read from the table stands for: a missing row
/// counts as 0.
pub open spec fn stored_paws(stored: Option<i32>) -> int {
    match stored {
        Some(a) => a as int,
        None => 0,
    }
}

/// The table after one write.
pub open spec fn apply_write(b: Map<i64, int>, w: BalanceWrite) -> Map<i64, int> {
    match w {
        BalanceWrite::Deposit { user, amount } => b.insert(user, held(b, user) + amount),
        BalanceWrite::Withdraw { user, amount } => if b.contains_key(user) {
            b.insert(user, b[user] - amount)
        } else {
            b
        },
        BalanceWrite::Increase { user, amount } => if b.contains_key(user) {
            b.insert(user, b[user] + amount)
        } else {
            b
        },
        BalanceWrite::Assign { user, amount } => if b.contains_key(user) {
            b.insert(user, amount as int)
        } else {
            b
        },
    }
}

/// The paws held in the table, counted once per row.
pub open spec fn total_paws(b: Map<i64, int>) -> int
    decreases b.dom().len(),
    when b.dom().finite()
{
    if b.dom().len() == 0 {
        0
    } else {
        let u = b.dom().choose();
        b[u] + total_paws(b.remove(u))
    }
}

/// The amount a balance read from the table stands for (0 for a missing
/// row).
pub fn paws_or_zero(stored: Option<i32>) -> (paws: i32)
    ensures
        paws == stored_paws(stored),
{
    match stored {
        Some(a) => a,
        None => 0,
    }
}

} // verus!
