//! Verified core of a Discord music bot: command parsing, the texts that the
//! bot replies with, the decisions each command takes, and the queue shuffle.
pub mod utils;
pub mod commands;
pub mod handler;
pub mod track;
pub mod weather;
