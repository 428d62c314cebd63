use std::collections::HashMap;

use pawbot::ledger::BalanceWrite;
use pawbot::paws::event_handler::{
    check_random_paw, is_paw_call, listens_to, message_step, post_paw, retire_paw, MessageFacts,
    MessageStep, PawLookup, PawWrite, RandomPaw,
};
use pawbot::paws::top::{is_ranked, leaderboard, LeaderboardEntry};

const NOW: i128 = 1_700_000_000_000_000_000;
const MINUTE: i128 = 60_000_000_000;

fn paw(created: i128) -> RandomPaw {
    RandomPaw { message_id: 10, channel_id: 967074642076516367, created, claimed: false }
}

#[test]
fn listens_only_to_people_in_paw_channels() {
    assert!(listens_to(false, 967074642076516367));
    assert!(listens_to(false, 1272161749155446794));
    assert!(!listens_to(true, 967074642076516367));
    assert!(!listens_to(false, 42));
}

#[test]
fn paw_call_is_the_emoji_alone() {
    assert!(is_paw_call("🐶"));
    assert!(!is_paw_call("🐶🐶"));
    assert!(!is_paw_call(" 🐶"));
    assert!(!is_paw_call(""));
    assert!(!is_paw_call("dog"));
}

#[test]
fn random_paws_expire_after_ten_minutes() {
    assert!(matches!(check_random_paw(None, NOW), PawLookup::Missing));
    assert_eq!(
        match check_random_paw(Some(paw(NOW - 10 * MINUTE)), NOW) {
            PawLookup::Live(p) => p,
            _ => panic!("expected a live paw"),
        },
        paw(NOW - 10 * MINUTE)
    );
    assert!(matches!(
        check_random_paw(Some(paw(NOW - 10 * MINUTE - 1)), NOW),
        PawLookup::Expired(_)
    ));
}

#[test]
fn claim_call_takes_the_live_paw() {
    let facts = MessageFacts {
        author: 77,
        paw_call: true,
        now: NOW,
        live_paw: Some(Some(paw(NOW))),
        spawn_cooldown: None,
    };
    match message_step(&facts) {
        MessageStep::ClaimPaw { paw: p, deposit, retire } => {
            assert_eq!(p, paw(NOW));
            assert_eq!(deposit, BalanceWrite::Deposit { user: 77, amount: 1 });
            assert_eq!(retire, PawWrite::MarkClaimed { message_id: 10 });
        }
        _ => panic!("expected a claim"),
    }
}

#[test]
fn messages_spawn_only_without_a_live_paw() {
    let mut facts = MessageFacts {
        author: 77,
        paw_call: false,
        now: NOW,
        live_paw: None,
        spawn_cooldown: None,
    };
    assert!(matches!(message_step(&facts), MessageStep::LookUpPaw));
    facts.live_paw = Some(Some(paw(NOW)));
    assert!(matches!(message_step(&facts), MessageStep::ReadSpawnCooldown));
    facts.spawn_cooldown = Some(None);
    for _ in 0..50 {
        assert!(matches!(message_step(&facts), MessageStep::Done));
    }
    facts.spawn_cooldown = Some(Some(NOW + 1));
    facts.live_paw = Some(None);
    for _ in 0..50 {
        assert!(matches!(message_step(&facts), MessageStep::Done));
    }
    facts.spawn_cooldown = Some(None);
    let mut spawned = 0;
    for _ in 0..300 {
        match message_step(&facts) {
            MessageStep::Spawn { cooldown_expires } => {
                spawned += 1;
                assert!(cooldown_expires >= NOW + 2 * MINUTE);
                assert!(cooldown_expires <= NOW + 19 * MINUTE);
            }
            MessageStep::Done => {}
            _ => panic!("unexpected step"),
        }
    }
    assert!(spawned > 0 && spawned < 300);
}

#[test]
fn leaderboard_with_caller_in_top() {
    let entries = vec![
        LeaderboardEntry { user_id: 1, amount: 30 },
        LeaderboardEntry { user_id: 2, amount: 20 },
    ];
    assert!(is_ranked(&entries, 2));
    assert_eq!(
        leaderboard(50, 2, &entries, 2, Some((99, 1))),
        "🐶 50\n🧑‍🌾 2\n1. <@1> - **30** paws\n2. <@2> - **20** paws\n"
    );
}

#[test]
fn leaderboard_with_caller_below() {
    let entries = vec![LeaderboardEntry { user_id: 1, amount: 30 }];
    assert!(!is_ranked(&entries, 5));
    assert_eq!(
        leaderboard(31, 14, &entries, 5, Some((14, 1))),
        "🐶 31\n🧑‍🌾 14\n1. <@1> - **30** paws\n... _3 other furries_ ...\n14. <@5> - **1** paws"
    );
}

#[test]
fn leaderboard_with_unranked_caller() {
    let entries: Vec<LeaderboardEntry> = Vec::new();
    assert_eq!(
        leaderboard(0, 0, &entries, 5, None),
        "🐶 0\n🧑‍🌾 0\n...You have **0** paws and are not yet ranked."
    );
}

#[test]
fn paw_table_writes() {
    assert_eq!(retire_paw(&paw(NOW)), PawWrite::MarkClaimed { message_id: 10 });
    assert_eq!(
        post_paw(11, 967074642076516367, NOW),
        PawWrite::Post { message_id: 11, channel_id: 967074642076516367, created: NOW }
    );
}

/// Replays the paw-table writes of a run of messages on a small table and
/// checks that no channel ends up with two unclaimed paws.
#[test]
fn a_channel_never_holds_two_unclaimed_paws() {
    let channel = 967074642076516367i64;
    let mut table: HashMap<i64, RandomPaw> = HashMap::new();
    let mut next_id = 100i64;
    let mut now = NOW;
    for round in 0..200 {
        let unclaimed = table.values().find(|p| p.channel_id == channel && !p.claimed).copied();
        let lookup = check_random_paw(unclaimed, now);
        let live = match lookup {
            PawLookup::Expired(p) => {
                table.get_mut(&p.message_id).unwrap().claimed = true;
                None
            }
            PawLookup::Live(p) => Some(p),
            PawLookup::Missing => None,
        };
        let facts = MessageFacts {
            author: 5,
            paw_call: round % 3 == 0,
            now,
            live_paw: Some(live),
            spawn_cooldown: Some(None),
        };
        match message_step(&facts) {
            MessageStep::ClaimPaw { retire: PawWrite::MarkClaimed { message_id }, .. } => {
                table.get_mut(&message_id).unwrap().claimed = true;
            }
            MessageStep::Spawn { .. } => {
                match post_paw(next_id, channel, now) {
                    PawWrite::Post { message_id, channel_id, created } => {
                        table.insert(message_id, RandomPaw { message_id, channel_id, created, claimed: false });
                    }
                    _ => panic!("expected a post"),
                }
                next_id += 1;
            }
            _ => {}
        }
        let open = table.values().filter(|p| p.channel_id == channel && !p.claimed).count();
        assert!(open <= 1);
        now += 4 * MINUTE;
    }
}
