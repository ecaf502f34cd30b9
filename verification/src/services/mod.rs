//! What the bot asks of the services it talks to, and what it makes of
//! their answers.

pub mod chatgpt_service;
pub mod discord_service;
pub mod request;
