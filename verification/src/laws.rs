//! Properties that hold across the commands: paws move between users without
//! being made or lost, reported balances match the table, and cooldowns
//! refuse exactly until they expire.
use vstd::prelude::*;
use crate::clock::{start_of_next_day, NANOS_PER_DAY};
use crate::cooldown::{on_cooldown, CooldownAction};
use crate::ledger::{apply_write, held, total_paws, BalanceWrite};
use crate::clock::NANOS_PER_MINUTE;
use crate::paws::event_handler::{
    apply_paw_write, classify_paw, paws_well_kept, unclaimed_in, MessageStep, PawLookup, PawWrite,
    RandomPaw,
};
use crate::ledger::stored_paws;
use crate::paws::event_handler::{paw_channels, paw_expired, spawn_outcome, PAW_LIFETIME_MINUTES};
use crate::paws::daily::daily_taken_text;
use crate::paws::gamble::{gamble_afford_text, gamble_wait_text};
use crate::paws::give::{give_limit_text, give_short_text};
use crate::paws::steal::{steal_limit_text, steal_short_text, steal_target_short_text, steal_wait_text};
use crate::text::plural_s;
use crate::paws::gamble::{gamble_balance, gamble_fits, may_gamble, STAKE_LIMIT};
use crate::paws::give::{covers, TRANSFER_LIMIT};
use crate::paws::steal::steal_fits;
use crate::paws::top::{ranked, LeaderboardEntry};
use crate::text::{digit_char, digits};
use crate::paws::steal::{steal_balance, steal_settlement};

verus! {

/// Removing a row takes exactly its paws out of the total, whichever row
/// the total happened to count first.
proof fn lemma_total_without(b: Map<i64, int>, u: i64)
    requires
        b.dom().finite(),
        b.contains_key(u),
    ensures
        total_paws(b) == b[u] + total_paws(b.remove(u)),
    decreases b.dom().len(),
{
    let c = b.dom().choose();
    assert(b.dom().contains(c));
    if c != u {
        lemma_total_without(b.remove(c), u);
        lemma_total_without(b.remove(u), c);
        assert(b.remove(c).remove(u) =~= b.remove(u).remove(c));
    }
}

/// Replacing the paws of a user in a table changes the total by the
/// difference; a new row adds its paws.
proof fn lemma_total_insert(b: Map<i64, int>, u: i64, v: int)
    requires
        b.dom().finite(),
    ensures
        b.insert(u, v).dom().finite(),
        total_paws(b.insert(u, v)) == total_paws(b) - held(b, u) + v,
{
    let after = b.insert(u, v);
    lemma_total_without(after, u);
    if b.contains_key(u) {
        lemma_total_without(b, u);
        assert(after.remove(u) =~= b.remove(u));
    } else {
        assert(after.remove(u) =~= b);
    }
}

/// A gift moves exactly `count` paws from the giver to the receiver: the
/// giver loses them, the receiver gains them (opening a balance if needed),
/// nobody else is touched, and the total of all paws stays the same. A gift
/// to oneself changes nothing.
pub proof fn law_give_moves_paws(b: Map<i64, int>, giver: i64, receiver: i64, count: i32)
    requires
        b.dom().finite(),
        b.contains_key(giver),
    ensures
        ({
            let after = apply_write(
                apply_write(b, BalanceWrite::Withdraw { user: giver, amount: count }),
                BalanceWrite::Deposit { user: receiver, amount: count },
            );
            &&& after.dom().finite()
            &&& total_paws(after) == total_paws(b)
            &&& giver != receiver ==> held(after, giver) == held(b, giver) - count
            &&& giver != receiver ==> held(after, receiver) == held(b, receiver) + count
            &&& giver == receiver ==> after == b
            &&& forall|u: i64| u != giver && u != receiver ==> held(after, u) == held(b, u)
        }),
{
    let mid = b.insert(giver, b[giver] - count);
    lemma_total_insert(b, giver, b[giver] - count);
    let after = mid.insert(receiver, held(mid, receiver) + count);
    lemma_total_insert(mid, receiver, held(mid, receiver) + count);
    if giver == receiver {
        assert(after =~= b);
    }
}

/// A steal between users who both hold a balance moves exactly `count`
/// paws from the loser of the flip to its winner, keeps the total of all
/// paws and touches nobody else; stealing from oneself changes nothing.
/// Between two different users, the balance reported to the thief is the
/// thief's balance in the table afterwards.
pub proof fn law_steal_moves_paws(
    b: Map<i64, int>,
    thief: i64,
    target: i64,
    count: i32,
    won: bool,
)
    requires
        b.dom().finite(),
        b.contains_key(thief),
        b.contains_key(target),
    ensures
        ({
            let s = steal_settlement(thief, target, b[thief], count, won);
            let after = apply_write(apply_write(b, s.withdraw), s.increase);
            &&& after.dom().finite()
            &&& total_paws(after) == total_paws(b)
            &&& thief == target ==> after == b
            &&& thief != target ==> held(after, thief) == steal_balance(b[thief], count as int, won)
            &&& thief != target ==> held(after, target) == if won {
                b[target] - count
            } else {
                b[target] + count
            }
            &&& forall|u: i64| u != thief && u != target ==> held(after, u) == held(b, u)
        }),
{
    let s = steal_settlement(thief, target, b[thief], count, won);
    let (loser, winner) = if won {
        (target, thief)
    } else {
        (thief, target)
    };
    let mid = b.insert(loser, b[loser] - count);
    lemma_total_insert(b, loser, b[loser] - count);
    lemma_total_insert(mid, winner, mid[winner] + count);
    if thief == target {
        assert(mid.insert(winner, mid[winner] + count) =~= b);
    }
}

/// The balance a gamble reports is the balance stored for the gambler, it
/// is never negative, and nobody else's balance changes.
pub proof fn law_gamble_stores_reported_balance(
    b: Map<i64, int>,
    user: i64,
    current: i32,
    count: i32,
    won: bool,
    new_paws: i32,
)
    requires
        b.contains_key(user),
        new_paws == gamble_balance(current as int, count as int, won),
    ensures
        ({
            let after = apply_write(b, BalanceWrite::Assign { user, amount: new_paws });
            &&& held(after, user) == new_paws
            &&& new_paws >= 0
            &&& forall|u: i64| u != user ==> held(after, u) == held(b, u)
        }),
{
}

/// A daily claim or a claimed random paw adds exactly one paw to the
/// claimer, opening a balance if needed, and one paw to the total.
pub proof fn law_claim_adds_one_paw(b: Map<i64, int>, user: i64)
    requires
        b.dom().finite(),
    ensures
        ({
            let after = apply_write(b, BalanceWrite::Deposit { user, amount: 1 });
            &&& held(after, user) == held(b, user) + 1
            &&& total_paws(after) == total_paws(b) + 1
            &&& forall|u: i64| u != user ==> held(after, u) == held(b, u)
        }),
{
    lemma_total_insert(b, user, held(b, user) + 1);
}

/// A cooldown that an action starts at `now` refuses the action at every
/// instant before it expires and at none from its expiry on; it expires
/// after `now`, and no later than the action's longest delay.
pub proof fn law_cooldown_refuses_until_expiry(action: CooldownAction, now: i128, minutes: int, t: i128)
    requires
        action.fits_after(now as int),
        action.allows_delay(minutes),
    ensures
        ({
            let e = action.expiry(now as int, minutes);
            &&& now < e <= now + action.longest_delay()
            &&& on_cooldown(Some(e as i128), t) == (t < e)
        }),
{
    let d = NANOS_PER_DAY as int;
    if action.is_daily() {
        vstd::arithmetic::div_mod::lemma_fundamental_div_mod(now as int, d);
    }
}

/// One daily claim per UTC day: after a claim at `claimed`, a later claim
/// at `t` is refused exactly when it falls on the same UTC day.
pub proof fn law_daily_once_per_utc_day(claimed: i128, t: i128)
    requires
        CooldownAction::Paw.fits_after(claimed as int),
        claimed <= t,
    ensures
        on_cooldown(Some(start_of_next_day(claimed as int) as i128), t) == (t as int / (NANOS_PER_DAY as int)
            == claimed as int / (NANOS_PER_DAY as int)),
{
    let d = NANOS_PER_DAY as int;
    vstd::arithmetic::div_mod::lemma_fundamental_div_mod(claimed as int, d);
    vstd::arithmetic::div_mod::lemma_fundamental_div_mod(t as int, d);
    let q1 = claimed as int / d;
    let q2 = t as int / d;
    let r2 = t as int % d;
    if q2 < q1 {
        vstd::arithmetic::div_mod::lemma_div_is_ordered(claimed as int, t as int, d);
    }
    if q2 > q1 {
        assert(q2 >= q1 + 1);
        vstd::arithmetic::mul::lemma_mul_inequality(q1 + 1, q2, d);
        assert(t as int >= (q1 + 1) * d);
    }
    if q2 == q1 {
        assert((q1 + 1) * d == q1 * d + d) by {
            vstd::arithmetic::mul::lemma_mul_is_distributive_add_other_way(d, q1, 1);
        }
    }
}

/// No row of the random-paw table is lost, and no claimed paw becomes
/// unclaimed again.
pub open spec fn keeps_paw_rows(t: Map<i64, RandomPaw>, t2: Map<i64, RandomPaw>) -> bool {
    forall|id: i64| #[trigger]
        t.contains_key(id) ==> t2.contains_key(id) && (t[id].claimed ==> t2[id].claimed)
}

/// The random-paw table after the lookup of a channel: an expired paw is
/// marked claimed, anything else leaves the table as it is.
pub open spec fn table_after_lookup(t: Map<i64, RandomPaw>, lookup: PawLookup) -> Map<i64, RandomPaw> {
    match lookup {
        PawLookup::Expired(p) => apply_paw_write(t, PawWrite::MarkClaimed { message_id: p.message_id }),
        _ => t,
    }
}

/// The unclaimed paw found for a channel is a row of the table, filed under
/// its message id.
proof fn lemma_unclaimed_is_row(t: Map<i64, RandomPaw>, channel: i64)
    requires
        paws_well_kept(t),
    ensures
        unclaimed_in(t, channel) matches Some(p) ==> {
            &&& t.contains_key(p.message_id)
            &&& t[p.message_id] == p
            &&& !p.claimed
            &&& p.channel_id == channel
        },
        unclaimed_in(t, channel) is None ==> forall|id: i64|
            #[trigger] t.contains_key(id) && t[id].channel_id == channel ==> t[id].claimed,
{
    if exists|id: i64| t.contains_key(id) && !t[id].claimed && #[trigger] t[id].channel_id == channel {
        let id = choose|id: i64| t.contains_key(id) && !t[id].claimed && #[trigger] t[id].channel_id == channel;
        assert(t[id].message_id == id);
    }
}

/// Marking a paw claimed keeps the table well kept and loses nothing.
proof fn lemma_mark_claimed(t: Map<i64, RandomPaw>, id: i64)
    requires
        paws_well_kept(t),
    ensures
        paws_well_kept(apply_paw_write(t, PawWrite::MarkClaimed { message_id: id })),
        keeps_paw_rows(t, apply_paw_write(t, PawWrite::MarkClaimed { message_id: id })),
        forall|other: i64| other != id ==> #[trigger] apply_paw_write(t, PawWrite::MarkClaimed { message_id: id }).contains_key(other)
            == t.contains_key(other) && (t.contains_key(other) ==> apply_paw_write(t, PawWrite::MarkClaimed { message_id: id })[other] == t[other]),
{
    let t2 = apply_paw_write(t, PawWrite::MarkClaimed { message_id: id });
    assert forall|a: i64, b: i64|
        t2.contains_key(a) && t2.contains_key(b) && !t2[a].claimed && !t2[b].claimed && t2[a].channel_id
            == t2[b].channel_id implies a == b by {
        assert(t[a].channel_id == t2[a].channel_id && !t[a].claimed);
        assert(t[b].channel_id == t2[b].channel_id && !t[b].claimed);
    }
}

/// Recording a freshly posted paw in a channel without an unclaimed paw
/// keeps the table well kept and loses nothing.
proof fn lemma_post(t: Map<i64, RandomPaw>, id: i64, channel: i64, created: i128)
    requires
        paws_well_kept(t),
        !t.contains_key(id),
        forall|other: i64| #[trigger] t.contains_key(other) && t[other].channel_id == channel ==> t[other].claimed,
    ensures
        paws_well_kept(apply_paw_write(t, PawWrite::Post { message_id: id, channel_id: channel, created })),
        keeps_paw_rows(t, apply_paw_write(t, PawWrite::Post { message_id: id, channel_id: channel, created })),
{
    let t2 = apply_paw_write(t, PawWrite::Post { message_id: id, channel_id: channel, created });
    assert forall|a: i64, b: i64|
        t2.contains_key(a) && t2.contains_key(b) && !t2[a].claimed && !t2[b].claimed && t2[a].channel_id
            == t2[b].channel_id implies a == b by {
        if a != id && b != id {
            assert(t[a] == t2[a] && t[b] == t2[b]);
        } else if a == id && b != id {
            assert(t[b] == t2[b]);
            assert(t.contains_key(b) && t[b].channel_id == channel);
        } else if b == id && a != id {
            assert(t[a] == t2[a]);
            assert(t.contains_key(a) && t[a].channel_id == channel);
        }
    }
}

/// What one message does to the random-paw table and the balances, for
/// any step that `message_step` may return after the lookup of `channel`:
/// the table stays well kept, so a channel never holds two unclaimed paws;
/// no row is lost and no claimed paw becomes unclaimed; no balance goes
/// down; and the total of paws grows by one exactly when a paw is claimed.
/// The spawned paw is posted as a new message, `posted`.
pub proof fn law_message_keeps_paw_tables(
    t: Map<i64, RandomPaw>,
    b: Map<i64, int>,
    channel: i64,
    author: i64,
    now: i128,
    step: MessageStep,
    posted: i64,
    created: i128,
)
    requires
        paws_well_kept(t),
        b.dom().finite(),
        step matches MessageStep::ClaimPaw { paw, deposit, retire } ==> {
            &&& classify_paw(unclaimed_in(t, channel), now) == PawLookup::Live(paw)
            &&& deposit == (BalanceWrite::Deposit { user: author, amount: 1 })
            &&& retire == (PawWrite::MarkClaimed { message_id: paw.message_id })
        },
        step is Spawn ==> !(classify_paw(unclaimed_in(t, channel), now) is Live) && !t.contains_key(posted),
    ensures
        ({
            let t1 = table_after_lookup(t, classify_paw(unclaimed_in(t, channel), now));
            let t2 = match step {
                MessageStep::ClaimPaw { retire, .. } => apply_paw_write(t1, retire),
                MessageStep::Spawn { .. } => apply_paw_write(
                    t1,
                    PawWrite::Post { message_id: posted, channel_id: channel, created },
                ),
                _ => t1,
            };
            let b2 = match step {
                MessageStep::ClaimPaw { deposit, .. } => apply_write(b, deposit),
                _ => b,
            };
            &&& paws_well_kept(t2)
            &&& keeps_paw_rows(t, t2)
            &&& forall|u: i64| held(b2, u) >= held(b, u)
            &&& total_paws(b2) == total_paws(b) + if step is ClaimPaw {
                1int
            } else {
                0int
            }
        }),
{
    let lookup = classify_paw(unclaimed_in(t, channel), now);
    lemma_unclaimed_is_row(t, channel);
    let t1 = table_after_lookup(t, lookup);
    if let PawLookup::Expired(p) = lookup {
        lemma_mark_claimed(t, p.message_id);
    }
    assert(paws_well_kept(t1));
    assert(keeps_paw_rows(t, t1));
    match step {
        MessageStep::ClaimPaw { paw, deposit, retire } => {
            lemma_mark_claimed(t1, paw.message_id);
            let t2 = apply_paw_write(t1, retire);
            assert(keeps_paw_rows(t, t2));
            law_claim_adds_one_paw(b, author);
        },
        MessageStep::Spawn { .. } => {
            assert forall|other: i64| #[trigger] t1.contains_key(other) && t1[other].channel_id == channel implies t1[other].claimed by {
                if let PawLookup::Expired(p) = lookup {
                    if other != p.message_id {
                        assert(t1[other] == t[other]);
                        assert(t.contains_key(p.message_id) && !t[p.message_id].claimed);
                    }
                }
            }
            assert(!t1.contains_key(posted));
            lemma_post(t1, posted, channel, created);
            let t2 = apply_paw_write(t1, PawWrite::Post { message_id: posted, channel_id: channel, created });
            assert(keeps_paw_rows(t, t2));
        },
        _ => {},
    }
}

/// Two paws spawn at least two minutes apart, in whatever channels: the
/// spawn at `first` starts the global spawn cooldown with a drawn delay,
/// and a spawn at `second` needs that cooldown to be over.
pub proof fn law_spawns_two_minutes_apart(first: i128, minutes: int, expiry: i128, second: i128)
    requires
        CooldownAction::Spawn.allows_delay(minutes),
        expiry == CooldownAction::Spawn.expiry(first as int, minutes),
        !on_cooldown(Some(expiry), second),
    ensures
        second >= first + 2 * NANOS_PER_MINUTE,
{
    assert(minutes * NANOS_PER_MINUTE >= 2 * NANOS_PER_MINUTE) by (nonlinear_arith)
        requires
            minutes >= 2,
    ;
}

/// An action whose cooldown draws a delay is refused, once it has started
/// its cooldown at `start`, at every instant before `start` plus the
/// shortest delay it can draw: three minutes for a steal, two for a gamble
/// or a spawn. A second steal within three minutes of a successful one is
/// therefore refused.
pub proof fn law_cooldown_lasts_shortest_delay(
    action: CooldownAction,
    start: i128,
    minutes: int,
    expiry: i128,
    t: i128,
)
    requires
        !action.is_daily(),
        action.allows_delay(minutes),
        expiry == action.expiry(start as int, minutes),
        t < start + action.delay_bounds().0 * NANOS_PER_MINUTE,
    ensures
        on_cooldown(Some(expiry), t),
{
    let lo = action.delay_bounds().0;
    assert(minutes * NANOS_PER_MINUTE >= lo * NANOS_PER_MINUTE) by (nonlinear_arith)
        requires
            minutes >= lo,
    ;
}

/// A stake that a gamble allows is covered by the gambler's paws and within
/// the limit: losing a stake of zero or more leaves `current - count` paws,
/// never fewer than zero, so the clamp at zero never changes the result.
pub proof fn law_gamble_stake_is_covered(current: i32, count: i32)
    requires
        may_gamble(Some(current), count as int),
        0 <= count,
    ensures
        count <= STAKE_LIMIT,
        current - count >= 0,
        gamble_balance(current as int, count as int, false) == current - count,
{
}

/// The bot listens in exactly the thirteen channels of its whitelist, and
/// in no other.
pub proof fn law_paw_channels_are_the_whitelist(channel: i64)
    ensures
        paw_channels().contains(channel) <==> (channel == 967074642076516367i64 || channel
            == 1074813849712214127i64 || channel == 1059235902771187793i64 || channel
            == 999826882461700258i64 || channel == 1042114977928065076i64 || channel
            == 1000506173713297431i64 || channel == 1008859522309312602i64 || channel
            == 1005528820075466964i64 || channel == 1028658894333038672i64 || channel
            == 979999280339247125i64 || channel == 1050847825723916382i64 || channel
            == 1041479219097645148i64 || channel == 1272161749155446794i64),
{
    let w = paw_channels();
    assert(w[0] == 967074642076516367i64);
    assert(w[1] == 1074813849712214127i64);
    assert(w[2] == 1059235902771187793i64);
    assert(w[3] == 999826882461700258i64);
    assert(w[4] == 1042114977928065076i64);
    assert(w[5] == 1000506173713297431i64);
    assert(w[6] == 1008859522309312602i64);
    assert(w[7] == 1005528820075466964i64);
    assert(w[8] == 1028658894333038672i64);
    assert(w[9] == 979999280339247125i64);
    assert(w[10] == 1050847825723916382i64);
    assert(w[11] == 1041479219097645148i64);
    assert(w[12] == 1272161749155446794i64);
    assert(w.len() == 13);
}

/// A steal settles, rather than overflowing, whenever the thief's sum and,
/// on a lost flip, the difference lie within the `i32` range; the reported
/// balance is the sum on a won flip and the difference on a lost one.
pub proof fn law_steal_settles_within_range(paws: int, count: int, won: bool)
    requires
        i32::MIN <= paws + count <= i32::MAX,
        !won ==> i32::MIN <= paws - count <= i32::MAX,
    ensures
        steal_fits(paws, count, won),
        won ==> steal_balance(paws, count, won) == paws + count,
        !won ==> steal_balance(paws, count, won) == paws - count,
{
}

/// A steal overflows only where the `i32` arithmetic does: the sum leaves
/// the range, or on a lost flip the difference does.
pub proof fn law_steal_overflows_only_out_of_range(paws: int, count: int, won: bool)
    requires
        !steal_fits(paws, count, won),
    ensures
        paws + count < i32::MIN || paws + count > i32::MAX || (!won && (paws - count < i32::MIN
            || paws - count > i32::MAX)),
{
}

/// A gamble plays, rather than overflowing, whenever the won sum or the
/// lost difference lies within the `i32` range, and its balance is that
/// sum or difference, or zero where it would fall below zero.
pub proof fn law_gamble_settles_within_range(current: int, count: int, won: bool)
    requires
        won ==> i32::MIN <= current + count <= i32::MAX,
        !won ==> i32::MIN < count && i32::MIN <= current - count <= i32::MAX,
    ensures
        gamble_fits(current, count, won),
        won && current + count >= 0 ==> gamble_balance(current, count, won) == current + count,
        !won && current - count >= 0 ==> gamble_balance(current, count, won) == current - count,
        gamble_balance(current, count, won) >= 0,
        (won && current + count < 0) || (!won && current - count < 0) ==> gamble_balance(current, count, won) == 0,
{
}

/// A user may gamble a stake exactly when a balance row covers it and it is
/// at most ten paws, whatever the balance: any stake from zero to ten that
/// the row covers is played, and a user without a row is always refused.
pub proof fn law_gamble_stake_rule(balance: Option<i32>, count: int)
    ensures
        balance matches Some(c) && 0 <= count <= 10 && count <= c ==> may_gamble(balance, count),
        may_gamble(balance, count) ==> balance is Some && count <= balance.unwrap() && count <= 10,
        balance is None ==> !may_gamble(balance, count),
        STAKE_LIMIT == 10,
{
}

/// A balance covers a gift or a stolen stake exactly when it holds some
/// paws and at least the count: a gift never leaves the giver below zero,
/// and a user without a row covers nothing.
pub proof fn law_covers_means_enough_paws(stored: Option<i32>, count: int)
    ensures
        covers(stored, count) <==> (stored matches Some(a) && a != 0 && a >= count),
        covers(stored, count) ==> stored_paws(stored) - count >= 0,
        TRANSFER_LIMIT == 10,
{
}

/// Every user who holds a row of the leaderboard is ranked, whatever its
/// place, and a user is ranked only by holding one of its rows.
pub proof fn law_ranked_means_holding_a_row(entries: Seq<LeaderboardEntry>, user: i64)
    ensures
        forall|i: int| 0 <= i < entries.len() ==> #[trigger] ranked(entries, entries[i].user_id),
        ranked(entries, user) ==> exists|i: int| 0 <= i < entries.len() && entries[i].user_id == user,
{
    assert forall|i: int| 0 <= i < entries.len() implies #[trigger] ranked(entries, entries[i].user_id) by {
        assert(entries[i].user_id == entries[i].user_id);
    }
}

/// A random paw expires exactly when it is older than ten minutes.
pub proof fn law_paw_lifetime_is_ten_minutes(created: int, now: int)
    ensures
        paw_expired(created, now) <==> created < now - 600_000_000_000,
        PAW_LIFETIME_MINUTES == 10,
{
}

/// The cooldowns draw their delays from the ranges the bot uses: three to
/// nine minutes after a steal, two to four after a gamble, two to nineteen
/// after a spawn, and the daily claim waits for the next UTC midnight; a
/// minute is sixty seconds and a day twenty-four hours.
pub proof fn law_cooldown_delays(minutes: int)
    ensures
        CooldownAction::Steal.allows_delay(minutes) <==> 3 <= minutes <= 9,
        CooldownAction::Gamble.allows_delay(minutes) <==> 2 <= minutes <= 4,
        CooldownAction::Spawn.allows_delay(minutes) <==> 2 <= minutes <= 19,
        CooldownAction::Paw.is_daily(),
        !CooldownAction::Steal.is_daily() && !CooldownAction::Gamble.is_daily()
            && !CooldownAction::Spawn.is_daily(),
        NANOS_PER_MINUTE == 60 * 1_000_000_000,
        NANOS_PER_DAY == 24 * 60 * NANOS_PER_MINUTE,
        forall|now: int| #[trigger] CooldownAction::Steal.expiry(now, minutes) == now + minutes * 60_000_000_000,
        forall|now: int| #[trigger] CooldownAction::Gamble.expiry(now, minutes) == now + minutes * 60_000_000_000,
        forall|now: int| #[trigger] CooldownAction::Spawn.expiry(now, minutes) == now + minutes * 60_000_000_000,
{
}

/// Decimal digits are written most significant first: a digit's character
/// is the one `d` places after '0', a number below ten is its one digit,
/// and a larger number is the digits of its tenth followed by its last
/// digit.
pub proof fn law_decimal_digits(n: nat, d: nat)
    requires
        d < 10,
    ensures
        digit_char(d as int) as u32 == 48 + d,
        digits(d) == seq![digit_char(d as int)],
        n >= 1 ==> digits(10 * n + d) == digits(n) + seq![digit_char(d as int)],
{
    if n >= 1 {
        assert((10 * n + d) / 10 == n);
        assert((10 * n + d) % 10 == d);
    }
}

/// A paw spawns only when the spawn cooldown is over, the one-in-three roll
/// succeeded and the channel has no live paw; then it always spawns, and
/// the next spawn waits the drawn number of minutes.
pub proof fn law_spawn_needs_roll_free_channel_and_no_cooldown(
    paw_found: bool,
    cooldown: Option<i128>,
    now: i128,
    rolled: bool,
    minutes: int,
)
    ensures
        spawn_outcome(paw_found, cooldown, now, rolled, minutes) is Spawn ==> rolled && !paw_found
            && (cooldown is None || cooldown.unwrap() <= now),
        rolled && !paw_found && (cooldown is None || cooldown.unwrap() <= now) ==> spawn_outcome(
            paw_found,
            cooldown,
            now,
            rolled,
            minutes,
        ) == (MessageStep::Spawn {
            cooldown_expires: (now + minutes * 60_000_000_000) as i128,
        }),
        !(spawn_outcome(paw_found, cooldown, now, rolled, minutes) is Spawn) ==> spawn_outcome(
            paw_found,
            cooldown,
            now,
            rolled,
            minutes,
        ) is Done,
{
}

/// A paw looked up for a channel is missing when there is none, expired
/// when it is older than ten minutes, and live otherwise.
pub proof fn law_paw_lookup(found: Option<RandomPaw>, now: i128)
    ensures
        found is None ==> classify_paw(found, now) is Missing,
        found is Some && found.unwrap().created < now - 600_000_000_000 ==> classify_paw(found, now)
            == PawLookup::Expired(found.unwrap()),
        found is Some && found.unwrap().created >= now - 600_000_000_000 ==> classify_paw(found, now)
            == PawLookup::Live(found.unwrap()),
{
}

/// The word "paw" takes an "s" after every count but one.
pub proof fn law_plural(n: int)
    ensures
        n == 1 ==> plural_s(n).len() == 0,
        n != 1 ==> plural_s(n) == seq!['s'],
{
    reveal_strlit("s");
}

/// The refusals say what they refuse.
pub proof fn law_refusal_texts()
    ensures
        give_limit_text() == "You can only give a maximum of 10 paws!"@,
        give_short_text() == "You don't have enough paws to give!"@,
        steal_limit_text() == "You can only steal a maximum of 10 paws!"@,
        steal_wait_text() == "The fuzz is hot on your tail, lay low for a while."@,
        steal_short_text() == "You can only steal as many paws as you have!"@,
        steal_target_short_text() == "That user doesn't have enough paws!"@,
        gamble_wait_text()
            == "⛔🐶 Gambling addiction is a serious problem. Regulations require a wait. Try again later..."@,
        gamble_afford_text() == "You can only gamble as many paws as you have! (Up to 10)"@,
        daily_taken_text() == "You've already claimed your daily paw!"@,
{
}

} // verus!
