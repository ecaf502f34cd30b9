//! Discord's REST API: the bot's commands, and the calls the bot makes.

use vstd::prelude::*;
use vstd::string::StringExecFns;
use crate::endpoint::{
    application_command_item_endpoint,
    application_command_item_url,
    application_commands_endpoint,
    application_commands_url,
    channel_item_endpoint,
    channel_item_url,
    channel_message_item_url,
    channel_messages_url,
    followup_item_url,
    followup_url,
    get_channel_message_item_endpoint,
    get_channel_messages_endpoint,
    get_followup_endpoint,
    get_followup_item_endpoint,
    get_start_thread_endpoint,
    guild_command_item_endpoint,
    guild_command_item_url,
    guild_commands_endpoint,
    guild_commands_url,
    start_thread_url,
};
use crate::env::Environment;
use crate::models::application_command::{
    ApplicationCommand,
    ApplicationCommandOption,
    ApplicationCommandOptionView,
    ApplicationCommandView,
};
use crate::models::discord::webhook_request::WebhookRequest;
use crate::services::request::{
    HttpMethod,
    OutboundRequest,
    OutboundRequestView,
    Payload,
    PayloadView,
    QueryValue,
    QueryValueView,
};

verus! {

/// The command that answers the latest message.
pub open spec fn chat_command() -> ApplicationCommandView {
    ApplicationCommandView {
        name: "chat"@,
        type_: 1,
        description: Some("ChatGPT command"@),
        options: None,
    }
}

/// The command that answers the latest few messages.
pub open spec fn chats_command() -> ApplicationCommandView {
    ApplicationCommandView {
        name: "chats"@,
        type_: 1,
        description: Some("ChatGPT command"@),
        options: Some(
            seq![
                ApplicationCommandOptionView {
                    name: "read_count"@,
                    type_: 4,
                    description: "Read messages count. default is 3"@,
                    required: Some(false),
                    min_length: None,
                    max_value: Some(100u32),
                },
            ],
        ),
    }
}

/// The command on a message that sums it up.
pub open spec fn message_command() -> ApplicationCommandView {
    ApplicationCommandView { name: "Summarize"@, type_: 3, description: None, options: None }
}

/// The command that answers the latest message.
pub fn generate_chat_command() -> (command: ApplicationCommand)
    ensures
        command@ == chat_command(),
{
    ApplicationCommand {
        name: "chat".to_owned(),
        type_: 1,
        description: Some("ChatGPT command".to_owned()),
        options: None,
    }
}

/// The command that answers the latest few messages; how many is its one
/// option, an integer of at most 100.
pub fn generate_chats_command() -> (command: ApplicationCommand)
    ensures
        command@ == chats_command(),
{
    let mut options: Vec<ApplicationCommandOption> = Vec::new();
    options.push(
        ApplicationCommandOption {
            name: "read_count".to_owned(),
            type_: 4,
            description: "Read messages count. default is 3".to_owned(),
            required: Some(false),
            min_length: None,
            max_value: Some(100),
        },
    );
    assert(options.deep_view() =~= chats_command().options->Some_0);
    ApplicationCommand {
        name: "chats".to_owned(),
        type_: 1,
        description: Some("ChatGPT command".to_owned()),
        options: Some(options),
    }
}

/// The command on a message that sums it up.
pub fn generate_message_command() -> (command: ApplicationCommand)
    ensures
        command@ == message_command(),
{
    ApplicationCommand {
        name: "Summarize".to_owned(),
        type_: 3,
        description: None,
        options: None,
    }
}

/// A call to Discord in the bot's name, without query parameters.
fn discord_call(environment: &Environment, method: HttpMethod, url: String, payload: Payload) -> (call:
    OutboundRequest)
    ensures
        call@ == OutboundRequestView::discord(
            method,
            url@,
            environment@.discord_bot_token,
            payload@,
        ),
{
    let mut authorization = String::from_str("Bot ");
    authorization.append(environment.discord_bot_token.as_str());
    let query: Vec<(String, QueryValue)> = Vec::new();
    assert(query.deep_view() =~= Seq::empty());
    OutboundRequest { method, url, authorization, query, payload }
}

/// The call that registers the chat command for every guild.
pub fn post_create_application_chat_command(environment: &Environment) -> (call: OutboundRequest)
    ensures
        call@ == OutboundRequestView::discord(
            HttpMethod::Post,
            application_commands_url(environment@.discord_application_id),
            environment@.discord_bot_token,
            PayloadView::Command(chat_command()),
        ),
{
    discord_call(
        environment,
        HttpMethod::Post,
        application_commands_endpoint(environment.discord_application_id.as_str()),
        Payload::Command(generate_chat_command()),
    )
}

/// The call that registers the message command for every guild.
pub fn post_create_application_message_command(environment: &Environment) -> (call: OutboundRequest)
    ensures
        call@ == OutboundRequestView::discord(
            HttpMethod::Post,
            application_commands_url(environment@.discord_application_id),
            environment@.discord_bot_token,
            PayloadView::Command(message_command()),
        ),
{
    discord_call(
        environment,
        HttpMethod::Post,
        application_commands_endpoint(environment.discord_application_id.as_str()),
        Payload::Command(generate_message_command()),
    )
}

/// The call that registers the chat command in one guild.
pub fn post_create_guild_chat_command(environment: &Environment, guild_id: &str) -> (call:
    OutboundRequest)
    ensures
        call@ == OutboundRequestView::discord(
            HttpMethod::Post,
            guild_commands_url(environment@.discord_application_id, guild_id@),
            environment@.discord_bot_token,
            PayloadView::Command(chat_command()),
        ),
{
    discord_call(
        environment,
        HttpMethod::Post,
        guild_commands_endpoint(environment.discord_application_id.as_str(), guild_id),
        Payload::Command(generate_chat_command()),
    )
}

/// The call that registers the message command in one guild.
pub fn post_create_guild_message_command(environment: &Environment, guild_id: &str) -> (call:
    OutboundRequest)
    ensures
        call@ == OutboundRequestView::discord(
            HttpMethod::Post,
            guild_commands_url(environment@.discord_application_id, guild_id@),
            environment@.discord_bot_token,
            PayloadView::Command(message_command()),
        ),
{
    discord_call(
        environment,
        HttpMethod::Post,
        guild_commands_endpoint(environment.discord_application_id.as_str(), guild_id),
        Payload::Command(generate_message_command()),
    )
}

/// The call that lists the commands registered for every guild.
pub fn get_application_commands(environment: &Environment) -> (call: OutboundRequest)
    ensures
        call@ == OutboundRequestView::discord(
            HttpMethod::Get,
            application_commands_url(environment@.discord_application_id),
            environment@.discord_bot_token,
            PayloadView::Empty,
        ),
{
    discord_call(
        environment,
        HttpMethod::Get,
        application_commands_endpoint(environment.discord_application_id.as_str()),
        Payload::Empty,
    )
}

/// The call that lists the commands registered in one guild.
pub fn get_guild_commands(environment: &Environment, guild_id: &str) -> (call: OutboundRequest)
    ensures
        call@ == OutboundRequestView::discord(
            HttpMethod::Get,
            guild_commands_url(environment@.discord_application_id, guild_id@),
            environment@.discord_bot_token,
            PayloadView::Empty,
        ),
{
    discord_call(
        environment,
        HttpMethod::Get,
        guild_commands_endpoint(environment.discord_application_id.as_str(), guild_id),
        Payload::Empty,
    )
}

/// The call that removes a command from one guild.
pub fn delete_guild_command(environment: &Environment, guild_id: &str, command_id: &str) -> (call:
    OutboundRequest)
    ensures
        call@ == OutboundRequestView::discord(
            HttpMethod::Delete,
            guild_command_item_url(environment@.discord_application_id, guild_id@, command_id@),
            environment@.discord_bot_token,
            PayloadView::Empty,
        ),
{
    discord_call(
        environment,
        HttpMethod::Delete,
        guild_command_item_endpoint(
            environment.discord_application_id.as_str(),
            guild_id,
            command_id,
        ),
        Payload::Empty,
    )
}

/// The call that removes a command registered for every guild.
pub fn delete_application_command(environment: &Environment, command_id: &str) -> (call:
    OutboundRequest)
    ensures
        call@ == OutboundRequestView::discord(
            HttpMethod::Delete,
            application_command_item_url(environment@.discord_application_id, command_id@),
            environment@.discord_bot_token,
            PayloadView::Empty,
        ),
{
    discord_call(
        environment,
        HttpMethod::Delete,
        application_command_item_endpoint(environment.discord_application_id.as_str(), command_id),
        Payload::Empty,
    )
}

/// The call that fetches a channel.
pub fn get_get_channel(environment: &Environment, channel_id: &str) -> (call: OutboundRequest)
    ensures
        call@ == OutboundRequestView::discord(
            HttpMethod::Get,
            channel_item_url(channel_id@),
            environment@.discord_bot_token,
            PayloadView::Empty,
        ),
{
    discord_call(environment, HttpMethod::Get, channel_item_endpoint(channel_id), Payload::Empty)
}

/// How many messages are asked for when the caller does not say.
pub const DEFAULT_LIMIT: u32 = 10;

/// The query that asks for `limit` messages, ten where none is given,
/// older than `before` where that is given.
pub open spec fn messages_query(before: Option<Seq<char>>, limit: Option<u32>) -> Seq<
    (Seq<char>, QueryValueView),
> {
    let limit = match limit {
        Some(limit) => limit,
        None => DEFAULT_LIMIT,
    };
    match before {
        Some(before) => seq![
            ("before"@, QueryValueView::Text(before)),
            ("limit"@, QueryValueView::Number(limit)),
        ],
        None => seq![("limit"@, QueryValueView::Number(limit))],
    }
}

/// The call that fetches the latest messages of a channel, newest first:
/// `limit` of them, ten where none is given, and only those older than
/// the message `before` where that is given.
pub fn get_get_messages(
    environment: &Environment,
    channel_id: &str,
    before: Option<String>,
    limit: Option<u32>,
) -> (call: OutboundRequest)
    ensures
        call@ == (OutboundRequestView {
            query: messages_query(before.deep_view(), limit.deep_view()),
            ..OutboundRequestView::discord(
                HttpMethod::Get,
                channel_messages_url(channel_id@),
                environment@.discord_bot_token,
                PayloadView::Empty,
            )
        }),
{
    let limit = match limit {
        Some(limit) => limit,
        None => DEFAULT_LIMIT,
    };
    let mut call = discord_call(
        environment,
        HttpMethod::Get,
        get_channel_messages_endpoint(channel_id),
        Payload::Empty,
    );
    let mut query: Vec<(String, QueryValue)> = Vec::new();
    match before {
        Some(before) => {
            query.push(("before".to_owned(), QueryValue::Text(before)));
        },
        None => {},
    }
    query.push(("limit".to_owned(), QueryValue::Number(limit)));
    assert(query.deep_view() =~= messages_query(before.deep_view(), Some(limit)));
    call.query = query;
    call
}

/// The call that fetches one message of a channel.
pub fn get_get_message(environment: &Environment, channel_id: &str, message_id: &str) -> (call:
    OutboundRequest)
    ensures
        call@ == OutboundRequestView::discord(
            HttpMethod::Get,
            channel_message_item_url(channel_id@, message_id@),
            environment@.discord_bot_token,
            PayloadView::Empty,
        ),
{
    discord_call(
        environment,
        HttpMethod::Get,
        get_channel_message_item_endpoint(channel_id, message_id),
        Payload::Empty,
    )
}

/// The call that writes a message into a channel.
pub fn post_message(environment: &Environment, channel_id: &str, payload: WebhookRequest) -> (call:
    OutboundRequest)
    ensures
        call@ == OutboundRequestView::discord(
            HttpMethod::Post,
            channel_messages_url(channel_id@),
            environment@.discord_bot_token,
            PayloadView::Message(payload@),
        ),
{
    discord_call(
        environment,
        HttpMethod::Post,
        get_channel_messages_endpoint(channel_id),
        Payload::Message(payload),
    )
}

/// The call that shows a follow-up message to an interaction.
pub fn post_followup_message(
    environment: &Environment,
    interaction_token: &str,
    payload: WebhookRequest,
) -> (call: OutboundRequest)
    ensures
        call@ == OutboundRequestView::discord(
            HttpMethod::Post,
            followup_url(environment@.discord_application_id, interaction_token@),
            environment@.discord_bot_token,
            PayloadView::Message(payload@),
        ),
{
    discord_call(
        environment,
        HttpMethod::Post,
        get_followup_endpoint(environment.discord_application_id.as_str(), interaction_token),
        Payload::Message(payload),
    )
}

/// The call that replaces the text of a follow-up message.
pub fn edit_followup_message(
    environment: &Environment,
    message_id: &str,
    interaction_token: &str,
    payload: WebhookRequest,
) -> (call: OutboundRequest)
    ensures
        call@ == OutboundRequestView::discord(
            HttpMethod::Patch,
            followup_item_url(environment@.discord_application_id, interaction_token@, message_id@),
            environment@.discord_bot_token,
            PayloadView::Message(payload@),
        ),
{
    discord_call(
        environment,
        HttpMethod::Patch,
        get_followup_item_endpoint(
            environment.discord_application_id.as_str(),
            interaction_token,
            message_id,
        ),
        Payload::Message(payload),
    )
}

/// Discord's channel type number of a public thread.
pub const PUBLIC_THREAD: u32 = 11;

/// The minutes without activity after which a thread the bot started is
/// archived.
pub const AUTO_ARCHIVE_MINUTES: u32 = 60;

/// The call that starts a public thread named `name` in a channel.
pub fn post_start_thread(environment: &Environment, channel_id: &str, name: &str) -> (call:
    OutboundRequest)
    ensures
        call@ == OutboundRequestView::discord(
            HttpMethod::Post,
            start_thread_url(channel_id@),
            environment@.discord_bot_token,
            PayloadView::Thread {
                name: name@,
                type_: PUBLIC_THREAD,
                auto_archive_duration: AUTO_ARCHIVE_MINUTES,
            },
        ),
{
    discord_call(
        environment,
        HttpMethod::Post,
        get_start_thread_endpoint(channel_id),
        Payload::Thread {
            name: name.to_owned(),
            type_: PUBLIC_THREAD,
            auto_archive_duration: AUTO_ARCHIVE_MINUTES,
        },
    )
}

} // verus!
