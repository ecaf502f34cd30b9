//! Addresses of the REST resources, built from identifiers.

use vstd::prelude::*;
use vstd::string::StringExecFns;
use crate::constants::{CHATGPT_BASE_URL, DISCORD_BASE_URL};

verus! {

/// The address of an application's resources.
pub open spec fn application_url(application_id: Seq<char>) -> Seq<char> {
    DISCORD_BASE_URL@ + "/applications/"@ + application_id
}

/// The address of the application's global commands.
pub open spec fn application_commands_url(application_id: Seq<char>) -> Seq<char> {
    application_url(application_id) + "/commands"@
}

/// The address of one global command.
pub open spec fn application_command_item_url(
    application_id: Seq<char>,
    command_id: Seq<char>,
) -> Seq<char> {
    application_url(application_id) + "/commands/"@ + command_id
}

/// The address of the application's commands in one guild.
pub open spec fn guild_commands_url(application_id: Seq<char>, guild_id: Seq<char>) -> Seq<char> {
    application_url(application_id) + "/guilds/"@ + guild_id + "/commands"@
}

/// The address of one command in one guild.
pub open spec fn guild_command_item_url(
    application_id: Seq<char>,
    guild_id: Seq<char>,
    command_id: Seq<char>,
) -> Seq<char> {
    application_url(application_id) + "/guilds/"@ + guild_id + "/commands/"@ + command_id
}

/// The address of a channel.
pub open spec fn channel_item_url(channel_id: Seq<char>) -> Seq<char> {
    DISCORD_BASE_URL@ + "/channels/"@ + channel_id
}

/// The address at which chat completions are asked for.
pub open spec fn chatgpt_completions_url() -> Seq<char> {
    CHATGPT_BASE_URL@ + "/chat/completions"@
}

/// The address of a channel's messages.
pub open spec fn channel_messages_url(channel_id: Seq<char>) -> Seq<char> {
    channel_item_url(channel_id) + "/messages"@
}

/// The address of one message of a channel.
pub open spec fn channel_message_item_url(channel_id: Seq<char>, message_id: Seq<char>) -> Seq<
    char,
> {
    channel_item_url(channel_id) + "/messages/"@ + message_id
}

/// The address at which follow-up messages to an interaction are sent.
pub open spec fn followup_url(application_id: Seq<char>, interaction_token: Seq<char>) -> Seq<
    char,
> {
    DISCORD_BASE_URL@ + "/webhooks/"@ + application_id + "/"@ + interaction_token
}

/// The address of one follow-up message.
pub open spec fn followup_item_url(
    application_id: Seq<char>,
    interaction_token: Seq<char>,
    message_id: Seq<char>,
) -> Seq<char> {
    followup_url(application_id, interaction_token) + "/messages/"@ + message_id
}

/// The address at which a thread is started in a channel.
pub open spec fn start_thread_url(channel_id: Seq<char>) -> Seq<char> {
    channel_item_url(channel_id) + "/threads"@
}

/// The address of an application's resources.
fn application_endpoint(application_id: &str) -> (url: String)
    ensures
        url@ == application_url(application_id@),
{
    let mut url = String::from_str(DISCORD_BASE_URL);
    url.append("/applications/");
    url.append(application_id);
    url
}

/// The address of the application's global commands.
pub fn application_commands_endpoint(application_id: &str) -> (url: String)
    ensures
        url@ == application_commands_url(application_id@),
{
    let mut url = application_endpoint(application_id);
    url.append("/commands");
    url
}

/// The address of one global command.
pub fn application_command_item_endpoint(application_id: &str, command_id: &str) -> (url: String)
    ensures
        url@ == application_command_item_url(application_id@, command_id@),
{
    let mut url = application_endpoint(application_id);
    url.append("/commands/");
    url.append(command_id);
    url
}

/// The address of the application's commands in one guild.
pub fn guild_commands_endpoint(application_id: &str, guild_id: &str) -> (url: String)
    ensures
        url@ == guild_commands_url(application_id@, guild_id@),
{
    let mut url = application_endpoint(application_id);
    url.append("/guilds/");
    url.append(guild_id);
    url.append("/commands");
    url
}

/// The address of one command in one guild.
pub fn guild_command_item_endpoint(application_id: &str, guild_id: &str, command_id: &str) -> (url:
    String)
    ensures
        url@ == guild_command_item_url(application_id@, guild_id@, command_id@),
{
    let mut url = application_endpoint(application_id);
    url.append("/guilds/");
    url.append(guild_id);
    url.append("/commands/");
    url.append(command_id);
    url
}

/// The address of a channel.
pub fn channel_item_endpoint(channel_id: &str) -> (url: String)
    ensures
        url@ == channel_item_url(channel_id@),
{
    let mut url = String::from_str(DISCORD_BASE_URL);
    url.append("/channels/");
    url.append(channel_id);
    url
}

/// The address at which chat completions are asked for.
pub fn chatgpt_completions_endpoint() -> (url: String)
    ensures
        url@ == chatgpt_completions_url(),
{
    let mut url = String::from_str(CHATGPT_BASE_URL);
    url.append("/chat/completions");
    url
}

/// The address of a channel's messages.
pub fn get_channel_messages_endpoint(channel_id: &str) -> (url: String)
    ensures
        url@ == channel_messages_url(channel_id@),
{
    let mut url = channel_item_endpoint(channel_id);
    url.append("/messages");
    url
}

/// The address of one message of a channel.
pub fn get_channel_message_item_endpoint(channel_id: &str, message_id: &str) -> (url: String)
    ensures
        url@ == channel_message_item_url(channel_id@, message_id@),
{
    let mut url = channel_item_endpoint(channel_id);
    url.append("/messages/");
    url.append(message_id);
    url
}

/// The address at which follow-up messages to an interaction are sent.
pub fn get_followup_endpoint(application_id: &str, interaction_token: &str) -> (url: String)
    ensures
        url@ == followup_url(application_id@, interaction_token@),
{
    let mut url = String::from_str(DISCORD_BASE_URL);
    url.append("/webhooks/");
    url.append(application_id);
    url.append("/");
    url.append(interaction_token);
    url
}

/// The address of one follow-up message.
pub fn get_followup_item_endpoint(
    application_id: &str,
    interaction_token: &str,
    message_id: &str,
) -> (url: String)
    ensures
        url@ == followup_item_url(application_id@, interaction_token@, message_id@),
{
    let mut url = get_followup_endpoint(application_id, interaction_token);
    url.append("/messages/");
    url.append(message_id);
    url
}

/// The address at which a thread is started in a channel.
pub fn get_start_thread_endpoint(channel_id: &str) -> (url: String)
    ensures
        url@ == start_thread_url(channel_id@),
{
    let mut url = channel_item_endpoint(channel_id);
    url.append("/threads");
    url
}

} // verus!
