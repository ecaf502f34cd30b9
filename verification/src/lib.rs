//! Core of a Discord chat bot: request authentication, interaction routing,
//! conversation hand-off records and the streaming completion relay, with the
//! behaviour of every function stated as a contract.

pub mod auth;
pub mod constants;
pub mod conversation;
pub mod endpoint;
pub mod env;
pub mod handler;
pub mod json;
pub mod models;
pub mod relay;
pub mod reply;
pub mod services;
pub mod text;
