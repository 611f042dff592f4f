//! What the bot does when something happens in a guild.

pub mod message_handler;
