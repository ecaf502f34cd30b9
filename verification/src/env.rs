//! The credentials and identifiers the bot is configured with.

use vstd::prelude::*;

verus! {

/// The bot's configuration, made once when the process starts and handed
/// to whatever needs it.
#[derive(Debug, Clone, PartialEq)]
pub struct Environment {
    /// The identifier of the bot's application; messages by this author
    /// are the assistant's.
    pub discord_application_id: String,
    /// The token that authorises calls to Discord.
    pub discord_bot_token: String,
    /// The public key, in hexadecimal, that interactions are signed for.
    pub discord_bot_public_key: String,
    /// The key that authorises calls to the chat-completion service.
    pub chatgpt_api_key: String,
}

/// Mathematical model of an [`Environment`].
pub ghost struct EnvironmentView {
    pub discord_application_id: Seq<char>,
    pub discord_bot_token: Seq<char>,
    pub discord_bot_public_key: Seq<char>,
    pub chatgpt_api_key: Seq<char>,
}

impl View for Environment {
    type V = EnvironmentView;

    open spec fn view(&self) -> EnvironmentView {
        EnvironmentView {
            discord_application_id: self.discord_application_id@,
            discord_bot_token: self.discord_bot_token@,
            discord_bot_public_key: self.discord_bot_public_key@,
            chatgpt_api_key: self.chatgpt_api_key@,
        }
    }
}

impl Environment {
    /// A configuration with the four values as given.
    pub fn new(
        discord_application_id: &str,
        discord_bot_token: &str,
        discord_bot_public_key: &str,
        chatgpt_api_key: &str,
    ) -> (environment: Environment)
        ensures
            environment@ == (EnvironmentView {
                discord_application_id: discord_application_id@,
                discord_bot_token: discord_bot_token@,
                discord_bot_public_key: discord_bot_public_key@,
                chatgpt_api_key: chatgpt_api_key@,
            }),
    {
        Environment {
            discord_application_id: discord_application_id.to_owned(),
            discord_bot_token: discord_bot_token.to_owned(),
            discord_bot_public_key: discord_bot_public_key.to_owned(),
            chatgpt_api_key: chatgpt_api_key.to_owned(),
        }
    }
}

} // verus!
