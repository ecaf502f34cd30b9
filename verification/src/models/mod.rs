//! Data carried between the bot, Discord, the chat-completion service and
//! the hand-off store.

pub mod application_command;
pub mod channel;
pub mod chatgpt;
pub mod discord;
pub mod dynamo;
pub mod response;
pub mod user;
