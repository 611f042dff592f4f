//! What the bot shows.

pub mod player_embed;
