//! Messages in the paw channels: random paws appear now and then, and the
//! first user to answer one with 🐶 claims it.
use vstd::prelude::*;
use crate::chance::{random_range, random_ratio};
use crate::clock::{valid_instant, NANOS_PER_MINUTE};
use crate::cooldown::{is_on_cooldown, on_cooldown, CooldownAction};
use crate::ledger::BalanceWrite;
use crate::text::{decimal, push_int, push_uint};

verus! {

/// The channels in which the bot spawns paws and listens for claims.
pub open spec fn paw_channels() -> Seq<i64> {
    seq![
        967074642076516367i64,
        1074813849712214127i64,
        1059235902771187793i64,
        999826882461700258i64,
        1042114977928065076i64,
        1000506173713297431i64,
        1008859522309312602i64,
        1005528820075466964i64,
        1028658894333038672i64,
        979999280339247125i64,
        1050847825723916382i64,
        1041479219097645148i64,
        1272161749155446794i64,
    ]
}

fn paw_channel_list() -> (v: Vec<i64>)
    ensures
        v@ == paw_channels(),
{
    let v = vec![
        967074642076516367i64,
        1074813849712214127i64,
        1059235902771187793i64,
        999826882461700258i64,
        1042114977928065076i64,
        1000506173713297431i64,
        1008859522309312602i64,
        1005528820075466964i64,
        1028658894333038672i64,
        979999280339247125i64,
        1050847825723916382i64,
        1041479219097645148i64,
        1272161749155446794i64,
    ];
    assert(v@ =~= paw_channels());
    v
}

/// Whether the bot looks at a message: its author is no bot and it was
/// posted in one of the paw channels.
pub fn listens_to(author_is_bot: bool, channel_id: i64) -> (b: bool)
    ensures
        b == (!author_is_bot && paw_channels().contains(channel_id)),
{
    if author_is_bot {
        return false;
    }
    let channels = paw_channel_list();
    let mut i: usize = 0;
    while i < channels.len()
        invariant
            !author_is_bot,
            channels@ == paw_channels(),
            i <= channels@.len(),
            forall|j: int| 0 <= j < i ==> channels@[j] != channel_id,
        decreases channels@.len() - i,
    {
        if channels[i] == channel_id {
            assert(paw_channels()[i as int] == channel_id);
            return true;
        }
        i += 1;
    }
    false
}

/// Minutes after which an unclaimed random paw expires.
pub const PAW_LIFETIME_MINUTES: i64 = 10i64;

/// A paw the bot posted in a channel.
#[derive(Clone, Copy, Debug, PartialEq, Eq, Structural)]
pub struct RandomPaw {
    /// The message that shows the paw.
    pub message_id: i64,
    /// The channel it was posted in.
    pub channel_id: i64,
    /// When it was posted.
    pub created: i128,
    /// Whether it was claimed or expired.
    pub claimed: bool,
}

/// A paw posted at `created` has expired at `now`: it is older than its
/// lifetime.
pub open spec fn paw_expired(created: int, now: int) -> bool {
    created < now - PAW_LIFETIME_MINUTES * NANOS_PER_MINUTE
}

/// The latest unclaimed paw of a channel, as the handler sees it.
pub enum PawLookup {
    /// The channel has no unclaimed paw.
    Missing,
    /// The paw is too old: it is to be marked claimed and its message deleted.
    Expired(RandomPaw),
    /// The paw can be claimed.
    Live(RandomPaw),
}

/// How a paw read for a channel at `now` is classified.
pub open spec fn classify_paw(found: Option<RandomPaw>, now: i128) -> PawLookup {
    match found {
        None => PawLookup::Missing,
        Some(p) => if paw_expired(p.created as int, now as int) {
            PawLookup::Expired(p)
        } else {
            PawLookup::Live(p)
        },
    }
}

/// Classifies the unclaimed paw read for a channel at `now`.
pub fn check_random_paw(found: Option<RandomPaw>, now: i128) -> (r: PawLookup)
    requires
        found is Some ==> valid_instant(now - PAW_LIFETIME_MINUTES * NANOS_PER_MINUTE),
    ensures
        r == classify_paw(found, now),
        found is None ==> r is Missing,
        found matches Some(p) ==> if paw_expired(p.created as int, now as int) {
            r == PawLookup::Expired(p)
        } else {
            r == PawLookup::Live(p)
        },
{
    match found {
        None => PawLookup::Missing,
        Some(p) => {
            let oldest = now - (PAW_LIFETIME_MINUTES as i128) * NANOS_PER_MINUTE;
            if p.created < oldest {
                PawLookup::Expired(p)
            } else {
                PawLookup::Live(p)
            }
        },
    }
}

/// One change to the table of random paws, keyed by the id of the message
/// that shows each paw.
#[derive(Clone, Copy, Debug, PartialEq, Eq, Structural)]
pub enum PawWrite {
    /// Records a newly posted, unclaimed paw.
    Post { message_id: i64, channel_id: i64, created: i128 },
    /// Marks the paw of a message claimed (after a claim, or when it
    /// expired); a message without a row is left without one.
    MarkClaimed { message_id: i64 },
}

/// The table of random paws after one write.
pub open spec fn apply_paw_write(t: Map<i64, RandomPaw>, w: PawWrite) -> Map<i64, RandomPaw> {
    match w {
        PawWrite::Post { message_id, channel_id, created } => t.insert(
            message_id,
            RandomPaw { message_id, channel_id, created, claimed: false },
        ),
        PawWrite::MarkClaimed { message_id } => if t.contains_key(message_id) {
            t.insert(message_id, RandomPaw { claimed: true, ..t[message_id] })
        } else {
            t
        },
    }
}

/// The table of random paws is well kept: each row is filed under its own
/// message id, and no channel has more than one unclaimed paw.
pub open spec fn paws_well_kept(t: Map<i64, RandomPaw>) -> bool {
    &&& forall|id: i64| #[trigger] t.contains_key(id) ==> t[id].message_id == id
    &&& forall|a: i64, b: i64|
        #![trigger t[a], t[b]]
        t.contains_key(a) && t.contains_key(b) && !t[a].claimed && !t[b].claimed && t[a].channel_id
            == t[b].channel_id ==> a == b
}

/// The unclaimed paw of `channel`, if the table holds one: what the
/// handler's lookup reads.
pub open spec fn unclaimed_in(t: Map<i64, RandomPaw>, channel: i64) -> Option<RandomPaw> {
    if exists|id: i64| t.contains_key(id) && !t[id].claimed && #[trigger] t[id].channel_id == channel {
        let id = choose|id: i64| t.contains_key(id) && !t[id].claimed && #[trigger] t[id].channel_id == channel;
        Some(t[id])
    } else {
        None
    }
}

/// The write that retires a paw: marks it claimed.
pub fn retire_paw(paw: &RandomPaw) -> (w: PawWrite)
    ensures
        w == (PawWrite::MarkClaimed { message_id: paw.message_id }),
{
    PawWrite::MarkClaimed { message_id: paw.message_id }
}

/// The write that records a paw just posted as the message `message_id` in
/// `channel_id` at `created`.
pub fn post_paw(message_id: i64, channel_id: i64, created: i128) -> (w: PawWrite)
    ensures
        w == (PawWrite::Post { message_id, channel_id, created }),
{
    PawWrite::Post { message_id, channel_id, created }
}

/// Whether a message's text is the claim call: the 🐶 emoji alone.
pub fn is_paw_call(content: &str) -> (b: bool)
    ensures
        b == (content@ == "🐶"@),
        b == (content@ == seq!['\u{1F436}']),
{
    proof {
        reveal_strlit("🐶");
        assert("🐶"@ =~= seq!['\u{1F436}']);
    }
    if content.unicode_len() != 1 {
        return false;
    }
    let c = content.get_char(0);
    if c == '🐶' {
        assert(content@ =~= "🐶"@);
        true
    } else {
        false
    }
}

/// What is known so far about a message the bot listens to.
pub struct MessageFacts {
    /// The author of the message.
    pub author: i64,
    /// The message is the claim call.
    pub paw_call: bool,
    /// The current instant.
    pub now: i128,
    /// The live paw of the channel once looked up (`Some(None)` when there is
    /// none, or it expired, or the lookup failed).
    pub live_paw: Option<Option<RandomPaw>>,
    /// The expiry of the spawn cooldown once read.
    pub spawn_cooldown: Option<Option<i128>>,
}

/// What the handler does next with a message it listens to.
pub enum MessageStep {
    /// Look up the channel's latest unclaimed paw.
    LookUpPaw,
    /// Credit one paw to the author (`deposit`) and mark the paw claimed
    /// (`retire`).
    ClaimPaw { paw: RandomPaw, deposit: BalanceWrite, retire: PawWrite },
    /// Read the spawn cooldown.
    ReadSpawnCooldown,
    /// Nothing more to do.
    Done,
    /// Post a new paw in the channel and start a spawn cooldown that ends at
    /// `cooldown_expires`.
    Spawn { cooldown_expires: i128 },
}

/// The spawn decision for a channel in which a live paw was `paw_found`,
/// with the spawn cooldown `cooldown`, once the one-in-three roll came out
/// as `rolled` and `minutes` of spawn cooldown were drawn: a paw spawns
/// exactly when the cooldown is over, the roll succeeded and the channel
/// has no live paw.
pub open spec fn spawn_outcome(
    paw_found: bool,
    cooldown: Option<i128>,
    now: i128,
    rolled: bool,
    minutes: int,
) -> MessageStep {
    if !on_cooldown(cooldown, now) && rolled && !paw_found {
        MessageStep::Spawn {
            cooldown_expires: CooldownAction::Spawn.expiry(now as int, minutes) as i128,
        }
    } else {
        MessageStep::Done
    }
}

/// Decides the spawn once the roll and the drawn minutes are known.
pub fn spawn_after_roll(
    paw_found: bool,
    cooldown: Option<i128>,
    now: i128,
    rolled: bool,
    minutes: i64,
) -> (step: MessageStep)
    requires
        !on_cooldown(cooldown, now) && rolled && !paw_found ==> CooldownAction::Spawn.fits_after(
            now as int,
        ) && CooldownAction::Spawn.allows_delay(minutes as int),
    ensures
        step == spawn_outcome(paw_found, cooldown, now, rolled, minutes as int),
{
    if !is_on_cooldown(cooldown, now) && rolled && !paw_found {
        let cooldown_expires = CooldownAction::Spawn.expiry_after(now, minutes);
        MessageStep::Spawn { cooldown_expires }
    } else {
        MessageStep::Done
    }
}

/// The next step for a message the bot listens to. A claim call answers a
/// live paw; otherwise, unless the spawn cooldown runs, a new paw appears
/// with a chance of one in three when the channel has no live paw.
pub fn message_step(facts: &MessageFacts) -> (step: MessageStep)
    requires
        facts.spawn_cooldown matches Some(e) && !on_cooldown(e, facts.now) ==> CooldownAction::Spawn.fits_after(
            facts.now as int,
        ),
    ensures
        match facts.live_paw {
            None => step is LookUpPaw,
            Some(found) => if found is Some && facts.paw_call {
                step == (MessageStep::ClaimPaw {
                    paw: found.unwrap(),
                    deposit: BalanceWrite::Deposit { user: facts.author, amount: 1 },
                    retire: PawWrite::MarkClaimed { message_id: found.unwrap().message_id },
                })
            } else {
                match facts.spawn_cooldown {
                    None => step is ReadSpawnCooldown,
                    Some(e) => if on_cooldown(e, facts.now) {
                        step is Done
                    } else {
                        &&& found is Some ==> step is Done
                        &&& step is Done || step is Spawn
                        &&& exists|rolled: bool, m: int|
                            CooldownAction::Spawn.allows_delay(m) && step == #[trigger] spawn_outcome(
                                found is Some,
                                e,
                                facts.now,
                                rolled,
                                m,
                            )
                    },
                }
            },
        },
{
    let live = match facts.live_paw {
        None => return MessageStep::LookUpPaw,
        Some(found) => found,
    };
    if facts.paw_call && live.is_some() {
        let paw = live.unwrap();
        let retire = retire_paw(&paw);
        return MessageStep::ClaimPaw {
            paw,
            deposit: BalanceWrite::Deposit { user: facts.author, amount: 1 },
            retire,
        };
    }
    let expiry = match facts.spawn_cooldown {
        None => return MessageStep::ReadSpawnCooldown,
        Some(e) => e,
    };
    if is_on_cooldown(expiry, facts.now) {
        return MessageStep::Done;
    }
    let rolled = random_ratio(1, 3);
    let (low, high) = (2i64, 20i64);
    assert(CooldownAction::Spawn.delay_bounds() == (low as int, high as int));
    let minutes = if rolled && live.is_none() {
        random_range(low, high)
    } else {
        low
    };
    spawn_after_roll(live.is_some(), expiry, facts.now, rolled, minutes)
}

/// The announcement of a claim by `user`, who now holds `total` paws.
pub open spec fn claim_text(user: int, total: int) -> Seq<char> {
    "<@"@ + decimal(user) + "> has claimed a paw and now holds onto "@ + decimal(total)
        + ".\n-# This message will self destruct in 5 seconds."@
}

/// The message that announces a claim.
pub fn claim_message(user: u64, total: i32) -> (msg: String)
    ensures
        msg@ == claim_text(user as int, total as int),
{
    let mut s = String::new();
    s.append("<@");
    push_uint(&mut s, user);
    s.append("> has claimed a paw and now holds onto ");
    push_int(&mut s, total as i64);
    s.append(".\n-# This message will self destruct in 5 seconds.");
    assert(s@ =~= claim_text(user as int, total as int));
    s
}

} // verus!
