//! Records written to the hand-off store.

pub mod discord_command;
