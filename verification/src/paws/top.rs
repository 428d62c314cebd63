//! `/paw top`: the leaderboard.
use vstd::prelude::*;
use crate::text::{decimal, push_int, push_uint};

verus! {

/// One row of the leaderboard: a user and the paws the user holds.
#[derive(Clone, Copy, Debug, PartialEq, Eq, Structural)]
pub struct LeaderboardEntry {
    pub user_id: i64,
    pub amount: i32,
}

/// The line of the user `user` at place `rank` with `amount` paws, without
/// its line break.
pub open spec fn place_line(rank: int, user: int, amount: int) -> Seq<char> {
    decimal(rank) + ". <@"@ + decimal(user) + "> - **"@ + decimal(amount) + "** paws"@
}

/// The lines of the leaderboard rows, numbered from 1, each ending in a
/// line break.
pub open spec fn ranking_lines(entries: Seq<LeaderboardEntry>) -> Seq<char>
    decreases entries.len(),
{
    if entries.len() == 0 {
        Seq::empty()
    } else {
        let last = entries.last();
        ranking_lines(entries.drop_last()) + place_line(
            entries.len() as int,
            last.user_id as int,
            last.amount as int,
        ) + "\n"@
    }
}

/// `user` holds one of the rows of the leaderboard.
pub open spec fn ranked(entries: Seq<LeaderboardEntry>, user: i64) -> bool {
    exists|i: int| 0 <= i < entries.len() && #[trigger] entries[i].user_id == user
}

/// The leaderboard as the caller sees it: the totals, the rows, and, for a
/// caller outside the rows, the caller's own place or a note that the
/// caller is not ranked.
pub open spec fn leaderboard_text(
    total_paws: int,
    total_users: int,
    entries: Seq<LeaderboardEntry>,
    caller: u64,
    caller_rank: Option<(i64, i32)>,
) -> Seq<char> {
    "🐶 "@ + decimal(total_paws) + "\n🧑‍🌾 "@ + decimal(total_users) + "\n"@ + ranking_lines(entries) + if ranked(
        entries,
        caller as i64,
    ) {
        Seq::empty()
    } else {
        match caller_rank {
            Some((rank, amount)) => "... _"@ + decimal(rank - 11) + " other furries_ ...\n"@ + place_line(
                rank as int,
                caller as int,
                amount as int,
            ),
            None => "..."@ + "You have **0** paws and are not yet ranked."@,
        }
    }
}

/// Whether `user` holds one of the rows of the leaderboard; when not, the
/// caller's own place has to be read as well.
pub fn is_ranked(entries: &Vec<LeaderboardEntry>, user: i64) -> (b: bool)
    ensures
        b == ranked(entries@, user),
{
    let mut i: usize = 0;
    while i < entries.len()
        invariant
            i <= entries@.len(),
            forall|j: int| 0 <= j < i ==> #[trigger] entries@[j].user_id != user,
        decreases entries@.len() - i,
    {
        if entries[i].user_id == user {
            assert(entries@[i as int].user_id == user);
            return true;
        }
        i += 1;
    }
    false
}

/// The text of the leaderboard. `caller_rank` is the caller's place and
/// balance, read only for a caller outside the rows; it is not used for a
/// caller among them.
pub fn leaderboard(
    total_paws: i64,
    total_users: i64,
    entries: &Vec<LeaderboardEntry>,
    caller: u64,
    caller_rank: Option<(i64, i32)>,
) -> (msg: String)
    requires
        caller_rank matches Some((rank, _)) ==> rank >= i64::MIN + 11,
    ensures
        msg@ == leaderboard_text(total_paws as int, total_users as int, entries@, caller, caller_rank),
{
    let mut s = String::new();
    s.append("🐶 ");
    push_int(&mut s, total_paws);
    s.append("\n🧑‍🌾 ");
    push_int(&mut s, total_users);
    s.append("\n");
    let ghost head = s@;
    assert(head =~= "🐶 "@ + decimal(total_paws as int) + "\n🧑‍🌾 "@ + decimal(total_users as int) + "\n"@);
    let mut i: usize = 0;
    while i < entries.len()
        invariant
            i <= entries@.len(),
            s@ == head + ranking_lines(entries@.take(i as int)),
        decreases entries@.len() - i,
    {
        let entry = entries[i];
        let ghost before = s@;
        push_uint(&mut s, (i + 1) as u64);
        s.append(". <@");
        push_int(&mut s, entry.user_id);
        s.append("> - **");
        push_int(&mut s, entry.amount as i64);
        s.append("** paws");
        s.append("\n");
        proof {
            assert(s@ =~= before + place_line((i + 1) as int, entry.user_id as int, entry.amount as int)
                + "\n"@);
            assert(entries@.take(i + 1).drop_last() =~= entries@.take(i as int));
            assert(entries@.take(i + 1).last() == entry);
        }
        i += 1;
    }
    assert(entries@.take(entries@.len() as int) =~= entries@);
    let ghost body = s@;
    let in_top = is_ranked(entries, #[verifier::truncate] (caller as i64));
    if !in_top {
        match caller_rank {
            Some((rank, amount)) => {
                s.append("... _");
                push_int(&mut s, rank - 11);
                s.append(" other furries_ ...\n");
                push_int(&mut s, rank);
                s.append(". <@");
                push_uint(&mut s, caller);
                s.append("> - **");
                push_int(&mut s, amount as i64);
                s.append("** paws");
                proof {
                    assert(s@ =~= body + ("... _"@ + decimal(rank - 11) + " other furries_ ...\n"@
                        + place_line(rank as int, caller as int, amount as int)));
                }
            },
            None => {
                s.append("...");
                s.append("You have **0** paws and are not yet ranked.");
                assert(s@ =~= body + ("..."@ + "You have **0** paws and are not yet ranked."@));
            },
        }
    } else {
        assert(s@ =~= body + Seq::<char>::empty());
    }
    s
}

} // verus!
