//! Decision logic of the paw economy bot: how paws are claimed, given,
//! gambled and stolen, when cooldowns refuse a command, and what the bot
//! answers. The Discord client, the database and the web server drive these
//! functions from the outside.
mod chance;
pub mod clock;
pub mod cooldown;
pub mod laws;
pub mod ledger;
pub mod paws;
pub mod text;
pub mod webserver;

pub use cooldown::CooldownAction;
