use pawbot::paws::balance::balance_message;
use pawbot::paws::daily::daily_claimed;
use pawbot::paws::event_handler::claim_message;
use pawbot::paws::gamble::build_result;
use pawbot::paws::give::give_thanks;
use pawbot::paws::steal::build_steal_result;
use pawbot::webserver::root_page;

#[test]
fn gamble_win_message() {
    assert_eq!(
        build_result(true, 5, 12),
        "Your gambling paid off, you won 5 paws, giving you a total of 12 paws. 📈"
    );
}

#[test]
fn gamble_loss_message_singular() {
    assert_eq!(
        build_result(false, 1, 1),
        "Your gambling sucked, you lost 1 paw, leaving you with a total of 1 paw. 📉"
    );
}

#[test]
fn gamble_message_negative_stake() {
    assert_eq!(
        build_result(true, -3, 0),
        "Your gambling paid off, you won -3 paws, giving you a total of 0 paws. 📈"
    );
}

#[test]
fn steal_win_message() {
    assert_eq!(
        build_steal_result(true, 3, 13, "rex"),
        "Your thievery paid off, you stole 3 paws from rex, giving you a total of 13 paws. 📈"
    );
}

#[test]
fn steal_loss_message() {
    assert_eq!(
        build_steal_result(false, 1, 1, "fido"),
        "Your thievery sucked, you gave 1 paw to fido, leaving you with a total of 1 paw. 📉"
    );
}

#[test]
fn balance_message_without_row() {
    assert_eq!(balance_message(None), "You have 0 paws!");
}

#[test]
fn balance_message_with_row() {
    assert_eq!(balance_message(Some(42)), "You have 42 paws!");
    assert_eq!(balance_message(Some(-7)), "You have -7 paws!");
}

#[test]
fn daily_claimed_message() {
    assert_eq!(
        daily_claimed(8),
        "You claimed your daily paw, and now hold onto 8 paws!"
    );
}

#[test]
fn give_thanks_plural_only_above_one() {
    assert_eq!(
        give_thanks(3, 123456789012345678),
        "You gave 3 paws to <@123456789012345678>! How nice of you."
    );
    assert_eq!(give_thanks(1, 7), "You gave 1 paw to <@7>! How nice of you.");
    assert_eq!(give_thanks(0, 7), "You gave 0 paw to <@7>! How nice of you.");
}

#[test]
fn claim_announcement() {
    assert_eq!(
        claim_message(99, 4),
        "<@99> has claimed a paw and now holds onto 4.\n-# This message will self destruct in 5 seconds."
    );
}

#[test]
fn status_page() {
    assert_eq!(
        root_page(120, 7, "unknown"),
        "<h1>Waterwolf Pawbot</h1>120 total paws<br />7 total users<br />commit unknown"
    );
}

#[test]
fn extreme_integers_are_written_in_full() {
    assert_eq!(balance_message(Some(i32::MIN)), "You have -2147483648 paws!");
    assert_eq!(balance_message(Some(i32::MAX)), "You have 2147483647 paws!");
    assert_eq!(
        root_page(i64::MIN, i64::MAX, ""),
        "<h1>Waterwolf Pawbot</h1>-9223372036854775808 total paws<br />9223372036854775807 total users<br />commit "
    );
}
