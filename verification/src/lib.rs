pub mod clock;
pub mod text;
pub mod config;
pub mod protocol;
pub mod stats;
pub mod tunnel;
pub mod crypto;
pub mod forward;
pub mod cli;
pub mod commands;
