//! Shapes of the chat-completion service's payloads.

pub mod chat_completion;
