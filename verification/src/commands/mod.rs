//! The commands that change how the player behaves this session.

pub mod cmd_normalize;
pub mod cmd_silent;
pub mod toggle;
