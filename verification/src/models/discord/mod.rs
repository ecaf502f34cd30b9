//! Shapes of the Discord REST and interaction payloads.

pub mod message;
pub mod request;
pub mod webhook_request;
