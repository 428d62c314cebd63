//! The `/paw` commands and the message events of the bot, each as the
//! decisions it makes between reads and writes of the database.
pub mod balance;
pub mod daily;
pub mod event_handler;
pub mod gamble;
pub mod give;
pub mod steal;
pub mod top;

use vstd::prelude::*;

verus! {

/// An answer to the user who ran a command. An ephemeral answer is shown
/// to that user alone; the others are replies visible in the channel.
pub struct Reply {
    pub text: String,
    pub ephemeral: bool,
}

/// A reply visible in the channel with the given text.
pub fn public_reply(text: &str) -> (r: Reply)
    ensures
        r.text@ == text@,
        !r.ephemeral,
{
    Reply { text: String::from_str(text), ephemeral: false }
}

/// An answer shown only to the user who ran the command.
pub fn private_reply(text: &str) -> (r: Reply)
    ensures
        r.text@ == text@,
        r.ephemeral,
{
    Reply { text: String::from_str(text), ephemeral: true }
}

} // verus!
