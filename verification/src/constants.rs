//! Base addresses of the two REST services the bot talks to.

use vstd::prelude::*;

verus! {

/// Root of the Discord REST API.
pub const DISCORD_BASE_URL: &'static str = "https://discord.com/api/v10";

/// Root of the chat-completion REST API.
pub const CHATGPT_BASE_URL: &'static str = "https://api.openai.com/v1";

} // verus!
