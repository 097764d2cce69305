//! The records the instructions read and write.

pub mod role_config;
pub mod token_config;
pub mod user_stats;
