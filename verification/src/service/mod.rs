//! Services behind the commands.

pub mod cache_service;
pub mod emoticon_service;
pub mod gather_service;
pub mod normalize_service;
