use pawbot::clock::{next_day_start, NANOS_PER_DAY, NANOS_PER_MINUTE};
use pawbot::ledger::BalanceWrite;
use pawbot::paws::daily::{daily_step, DailyStep};
use pawbot::paws::gamble::{gamble_outcome, gamble_step, play_gamble, GambleFacts, GambleStep};
use pawbot::paws::give::{give_step, GiveFacts, GiveStep};
use pawbot::paws::steal::{play_steal, settle_steal, steal_step, StealFacts, StealStep};
use pawbot::CooldownAction;

const NOW: i128 = 1_700_000_000_000_000_000;

fn refusal_text(reply: &pawbot::paws::Reply) -> (&str, bool) {
    (reply.text.as_str(), reply.ephemeral)
}

#[test]
fn give_over_limit_is_refused_before_reading() {
    let facts = GiveFacts { giver: 1, receiver: 2, count: 11, giver_balance: None };
    match give_step(&facts) {
        GiveStep::Refuse(r) => {
            assert_eq!(refusal_text(&r), ("You can only give a maximum of 10 paws!", true))
        }
        _ => panic!("expected a refusal"),
    }
}

#[test]
fn give_reads_balance_then_transfers() {
    let mut facts = GiveFacts { giver: 1, receiver: 2, count: 4, giver_balance: None };
    assert!(matches!(give_step(&facts), GiveStep::ReadGiverBalance));
    facts.giver_balance = Some(Some(4));
    match give_step(&facts) {
        GiveStep::Transfer { withdraw, deposit } => {
            assert_eq!(withdraw, BalanceWrite::Withdraw { user: 1, amount: 4 });
            assert_eq!(deposit, BalanceWrite::Deposit { user: 2, amount: 4 });
        }
        _ => panic!("expected a transfer"),
    }
}

#[test]
fn give_without_enough_paws() {
    for balance in [None, Some(0), Some(3)] {
        let facts = GiveFacts { giver: 1, receiver: 2, count: 4, giver_balance: Some(balance) };
        match give_step(&facts) {
            GiveStep::Refuse(r) => {
                assert_eq!(refusal_text(&r), ("You don't have enough paws to give!", false))
            }
            _ => panic!("expected a refusal"),
        }
    }
}

#[test]
fn gamble_on_cooldown() {
    let facts = GambleFacts {
        count: 1,
        now: NOW,
        cooldown: Some(Some(NOW + 1)),
        balance: None,
    };
    match gamble_step(&facts) {
        GambleStep::Refuse(r) => assert_eq!(
            refusal_text(&r),
            (
                "⛔🐶 Gambling addiction is a serious problem. Regulations require a wait. Try again later...",
                true
            )
        ),
        _ => panic!("expected a refusal"),
    }
}

#[test]
fn gamble_cooldown_ends_at_expiry() {
    let facts = GambleFacts { count: 1, now: NOW, cooldown: Some(Some(NOW)), balance: None };
    assert!(matches!(gamble_step(&facts), GambleStep::ReadBalance));
}

#[test]
fn gamble_stake_within_balance_and_limit() {
    let facts = GambleFacts { count: 1, now: NOW, cooldown: Some(None), balance: Some(None) };
    match gamble_step(&facts) {
        GambleStep::Refuse(r) => assert_eq!(
            refusal_text(&r),
            ("You can only gamble as many paws as you have! (Up to 10)", true)
        ),
        _ => panic!("expected a refusal"),
    }
    // the stake may not exceed the balance
    let facts = GambleFacts { count: 3, now: NOW, cooldown: Some(None), balance: Some(Some(2)) };
    assert!(matches!(gamble_step(&facts), GambleStep::Refuse(_)));
    // nor the limit of 10, whatever the balance
    let facts = GambleFacts { count: 11, now: NOW, cooldown: Some(None), balance: Some(Some(50)) };
    match gamble_step(&facts) {
        GambleStep::Refuse(r) => assert_eq!(
            refusal_text(&r),
            ("You can only gamble as many paws as you have! (Up to 10)", true)
        ),
        _ => panic!("expected a refusal"),
    }
    // the whole balance, up to 10, may be staked
    let facts = GambleFacts { count: 10, now: NOW, cooldown: Some(None), balance: Some(Some(10)) };
    assert!(matches!(gamble_step(&facts), GambleStep::Play { current: 10 }));
    let facts = GambleFacts { count: 2, now: NOW, cooldown: Some(None), balance: Some(Some(5)) };
    assert!(matches!(gamble_step(&facts), GambleStep::Play { current: 5 }));
    // an empty balance may stake zero
    let facts = GambleFacts { count: 0, now: NOW, cooldown: Some(None), balance: Some(Some(0)) };
    assert!(matches!(gamble_step(&facts), GambleStep::Play { current: 0 }));
}

#[test]
fn gamble_outcomes() {
    assert_eq!(gamble_outcome(5, 3, true), Some(8));
    assert_eq!(gamble_outcome(5, 3, false), Some(2));
    assert_eq!(gamble_outcome(2, 50, false), Some(0));
    assert_eq!(gamble_outcome(i32::MAX, 1, true), None);
    assert_eq!(gamble_outcome(1, i32::MIN, false), None);
}

#[test]
fn gamble_rounds_follow_the_coin() {
    let mut seen = [false, false];
    for _ in 0..200 {
        let round = play_gamble(9, 5, 3, NOW).unwrap();
        seen[round.won as usize] = true;
        assert_eq!(round.new_paws, if round.won { 8 } else { 2 });
        assert_eq!(round.write, BalanceWrite::Assign { user: 9, amount: round.new_paws });
        assert!(round.cooldown_expires >= NOW + 2 * NANOS_PER_MINUTE);
        assert!(round.cooldown_expires <= NOW + 4 * NANOS_PER_MINUTE);
        assert_eq!((round.cooldown_expires - NOW) % NANOS_PER_MINUTE, 0);
    }
    assert!(seen[0] && seen[1]);
}

#[test]
fn steal_checks_in_order() {
    let mut facts = StealFacts {
        thief: 1,
        target: 2,
        count: 12,
        now: NOW,
        cooldown: None,
        thief_balance: None,
        target_balance: None,
    };
    match steal_step(&facts) {
        StealStep::Refuse(r) => {
            assert_eq!(refusal_text(&r), ("You can only steal a maximum of 10 paws!", false))
        }
        _ => panic!("expected a refusal"),
    }
    facts.count = 3;
    assert!(matches!(steal_step(&facts), StealStep::ReadCooldown));
    facts.cooldown = Some(Some(NOW + 5));
    match steal_step(&facts) {
        StealStep::Refuse(r) => assert_eq!(
            refusal_text(&r),
            ("The fuzz is hot on your tail, lay low for a while.", true)
        ),
        _ => panic!("expected a refusal"),
    }
    facts.cooldown = Some(Some(NOW - 5));
    assert!(matches!(steal_step(&facts), StealStep::ReadThiefBalance));
    facts.thief_balance = Some(Some(2));
    match steal_step(&facts) {
        StealStep::Refuse(r) => assert_eq!(
            refusal_text(&r),
            ("You can only steal as many paws as you have!", false)
        ),
        _ => panic!("expected a refusal"),
    }
    facts.thief_balance = Some(Some(3));
    assert!(matches!(steal_step(&facts), StealStep::ReadTargetBalance));
    facts.target_balance = Some(None);
    match steal_step(&facts) {
        StealStep::Refuse(r) => {
            assert_eq!(refusal_text(&r), ("That user doesn't have enough paws!", false))
        }
        _ => panic!("expected a refusal"),
    }
    facts.target_balance = Some(Some(30));
    assert!(matches!(steal_step(&facts), StealStep::Attempt { thief_paws: 3 }));
}

#[test]
fn steal_settlements() {
    let won = settle_steal(1, 2, 5, 3, true).unwrap();
    assert_eq!(won.new_paws, 8);
    assert_eq!(won.withdraw, BalanceWrite::Withdraw { user: 2, amount: 3 });
    assert_eq!(won.increase, BalanceWrite::Increase { user: 1, amount: 3 });
    let lost = settle_steal(1, 2, 5, 3, false).unwrap();
    assert_eq!(lost.new_paws, 2);
    assert_eq!(lost.withdraw, BalanceWrite::Withdraw { user: 1, amount: 3 });
    assert_eq!(lost.increase, BalanceWrite::Increase { user: 2, amount: 3 });
    // the sum is computed even when the thief loses
    assert!(settle_steal(1, 2, i32::MAX, 3, false).is_none());
}

#[test]
fn steal_rounds_draw_cooldowns() {
    let mut minutes_seen = std::collections::HashSet::new();
    for _ in 0..300 {
        let round = play_steal(1, 2, 5, 3, NOW).unwrap();
        let minutes = (round.cooldown_expires - NOW) / NANOS_PER_MINUTE;
        assert_eq!((round.cooldown_expires - NOW) % NANOS_PER_MINUTE, 0);
        assert!((3..10).contains(&minutes));
        minutes_seen.insert(minutes);
        assert_eq!(round.settlement.new_paws, if round.won { 8 } else { 2 });
    }
    assert!(minutes_seen.len() > 1);
}

#[test]
fn daily_claim_and_refusal() {
    match daily_step(5, Some(NOW + 10), NOW) {
        DailyStep::Refuse(r) => {
            assert_eq!(refusal_text(&r), ("You've already claimed your daily paw!", true))
        }
        _ => panic!("expected a refusal"),
    }
    match daily_step(5, None, NOW) {
        DailyStep::Claim { cooldown_expires, deposit } => {
            assert_eq!(cooldown_expires, next_day_start(NOW));
            assert_eq!(deposit, BalanceWrite::Deposit { user: 5, amount: 1 });
        }
        _ => panic!("expected a claim"),
    }
}

#[test]
fn next_day_starts_at_utc_midnight() {
    // 2023-11-14 22:13:20 UTC
    assert_eq!(next_day_start(NOW), 1_700_006_400_000_000_000);
    // exactly at midnight the next claim waits a whole day
    assert_eq!(next_day_start(0), NANOS_PER_DAY);
    // before the epoch: 1969-12-31 12:00 UTC
    assert_eq!(next_day_start(-NANOS_PER_DAY / 2), 0);
    assert_eq!(next_day_start(-NANOS_PER_DAY), 0);
}

#[test]
fn cooldown_ranges() {
    assert_eq!(CooldownAction::Paw.delay_range(), None);
    assert_eq!(CooldownAction::Steal.delay_range(), Some((3, 10)));
    assert_eq!(CooldownAction::Gamble.delay_range(), Some((2, 5)));
    assert_eq!(CooldownAction::Spawn.delay_range(), Some((2, 20)));
    assert_eq!(CooldownAction::Gamble.expiry_after(NOW, 3), NOW + 3 * NANOS_PER_MINUTE);
    assert_eq!(CooldownAction::Paw.expiry_after(NOW, 3), next_day_start(NOW));
    assert!(pawbot::cooldown::is_on_cooldown(Some(NOW + 1), NOW));
    assert!(!pawbot::cooldown::is_on_cooldown(Some(NOW), NOW));
    assert!(!pawbot::cooldown::is_on_cooldown(None, NOW));
}
