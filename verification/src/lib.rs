//! Verified core of the vision-analyze command-line tool.

pub mod cli;
pub mod command;
pub mod client;
pub mod config;
pub mod daemon;
pub mod error;
pub mod output;
pub mod presets;
pub mod socket;
pub mod text;
pub mod trusted;
