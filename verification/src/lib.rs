//! The rules of a Discord music bot: what a player does with its queue, what
//! lands in the audio cache, how a gathering is run, which reactions a message
//! earns and what the bot says about all of it.
//!
//! Everything here is a function of plain values. Talking to Discord, to the
//! audio driver, to the database and to the disk is left to the program around
//! the library: it performs what a function here decides and hands the outcome
//! back.

pub mod bot;
pub mod commands;
pub mod embeds;
pub mod handlers;
pub mod player;
pub mod service;
pub mod text;
pub mod units;
pub mod voice;
