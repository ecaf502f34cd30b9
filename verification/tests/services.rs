use discord_chatbot::env::Environment;
use discord_chatbot::models::application_command::{ApplicationCommand, ApplicationCommandOption};
use discord_chatbot::models::chatgpt::chat_completion::{
    ChatCompletionMessage, ChatCompletionRequest,
};
use discord_chatbot::models::discord::webhook_request::WebhookRequest;
use discord_chatbot::services::chatgpt_service::post_chat_completions;
use discord_chatbot::services::discord_service::{
    delete_application_command, delete_guild_command, edit_followup_message,
    generate_chat_command, generate_chats_command, generate_message_command,
    get_application_commands, get_get_channel, get_get_message, get_get_messages,
    get_guild_commands, post_create_application_chat_command,
    post_create_application_message_command, post_create_guild_chat_command,
    post_create_guild_message_command, post_followup_message, post_message, post_start_thread,
};
use discord_chatbot::services::request::{HttpMethod, OutboundRequest, Payload, QueryValue};

fn environment() -> Environment {
    Environment::new("42", "secret", "00", "api-key")
}

fn call(method: HttpMethod, url: &str, payload: Payload) -> OutboundRequest {
    OutboundRequest {
        method,
        url: url.to_string(),
        authorization: "Bot secret".to_string(),
        query: Vec::new(),
        payload,
    }
}

fn webhook(content: &str) -> WebhookRequest {
    WebhookRequest { content: content.to_string() }
}

#[test]
fn chat_command_definition() {
    assert_eq!(
        generate_chat_command(),
        ApplicationCommand {
            name: "chat".to_string(),
            type_: 1,
            description: Some("ChatGPT command".to_string()),
            options: None,
        }
    );
}

#[test]
fn chats_command_definition() {
    assert_eq!(
        generate_chats_command(),
        ApplicationCommand {
            name: "chats".to_string(),
            type_: 1,
            description: Some("ChatGPT command".to_string()),
            options: Some(vec![ApplicationCommandOption {
                name: "read_count".to_string(),
                type_: 4,
                description: "Read messages count. default is 3".to_string(),
                required: Some(false),
                min_length: None,
                max_value: Some(100),
            }]),
        }
    );
}

#[test]
fn message_command_definition() {
    assert_eq!(
        generate_message_command(),
        ApplicationCommand {
            name: "Summarize".to_string(),
            type_: 3,
            description: None,
            options: None,
        }
    );
}

#[test]
fn registering_commands() {
    let environment = environment();
    assert_eq!(
        post_create_application_chat_command(&environment),
        call(
            HttpMethod::Post,
            "https://discord.com/api/v10/applications/42/commands",
            Payload::Command(generate_chat_command()),
        )
    );
    assert_eq!(
        post_create_application_message_command(&environment),
        call(
            HttpMethod::Post,
            "https://discord.com/api/v10/applications/42/commands",
            Payload::Command(generate_message_command()),
        )
    );
    assert_eq!(
        post_create_guild_chat_command(&environment, "g1"),
        call(
            HttpMethod::Post,
            "https://discord.com/api/v10/applications/42/guilds/g1/commands",
            Payload::Command(generate_chat_command()),
        )
    );
    assert_eq!(
        post_create_guild_message_command(&environment, "g1"),
        call(
            HttpMethod::Post,
            "https://discord.com/api/v10/applications/42/guilds/g1/commands",
            Payload::Command(generate_message_command()),
        )
    );
}

#[test]
fn listing_and_removing_commands() {
    let environment = environment();
    assert_eq!(
        get_application_commands(&environment),
        call(
            HttpMethod::Get,
            "https://discord.com/api/v10/applications/42/commands",
            Payload::Empty,
        )
    );
    assert_eq!(
        get_guild_commands(&environment, "g1"),
        call(
            HttpMethod::Get,
            "https://discord.com/api/v10/applications/42/guilds/g1/commands",
            Payload::Empty,
        )
    );
    assert_eq!(
        delete_guild_command(&environment, "g1", "7"),
        call(
            HttpMethod::Delete,
            "https://discord.com/api/v10/applications/42/guilds/g1/commands/7",
            Payload::Empty,
        )
    );
    assert_eq!(
        delete_application_command(&environment, "7"),
        call(
            HttpMethod::Delete,
            "https://discord.com/api/v10/applications/42/commands/7",
            Payload::Empty,
        )
    );
}

#[test]
fn reading_channels_and_messages() {
    let environment = environment();
    assert_eq!(
        get_get_channel(&environment, "c9"),
        call(HttpMethod::Get, "https://discord.com/api/v10/channels/c9", Payload::Empty)
    );
    assert_eq!(
        get_get_message(&environment, "c9", "m3"),
        call(HttpMethod::Get, "https://discord.com/api/v10/channels/c9/messages/m3", Payload::Empty)
    );
}

#[test]
fn messages_are_asked_for_with_a_limit_of_ten_by_default() {
    let got = get_get_messages(&environment(), "c9", None, None);
    let mut expected =
        call(HttpMethod::Get, "https://discord.com/api/v10/channels/c9/messages", Payload::Empty);
    expected.query = vec![("limit".to_string(), QueryValue::Number(10))];
    assert_eq!(got, expected);
}

#[test]
fn messages_are_asked_for_with_limit_and_before() {
    let got = get_get_messages(&environment(), "c9", Some("m5".to_string()), Some(25));
    assert_eq!(
        got.query,
        vec![
            ("before".to_string(), QueryValue::Text("m5".to_string())),
            ("limit".to_string(), QueryValue::Number(25)),
        ]
    );
    let got = get_get_messages(&environment(), "c9", None, Some(0));
    assert_eq!(got.query, vec![("limit".to_string(), QueryValue::Number(0))]);
}

#[test]
fn writing_messages() {
    let environment = environment();
    assert_eq!(
        post_message(&environment, "c9", webhook("hi")),
        call(
            HttpMethod::Post,
            "https://discord.com/api/v10/channels/c9/messages",
            Payload::Message(webhook("hi")),
        )
    );
    assert_eq!(
        post_followup_message(&environment, "tok", webhook("hi")),
        call(
            HttpMethod::Post,
            "https://discord.com/api/v10/webhooks/42/tok",
            Payload::Message(webhook("hi")),
        )
    );
    assert_eq!(
        edit_followup_message(&environment, "m3", "tok", webhook("hi again")),
        call(
            HttpMethod::Patch,
            "https://discord.com/api/v10/webhooks/42/tok/messages/m3",
            Payload::Message(webhook("hi again")),
        )
    );
}

#[test]
fn starting_a_thread() {
    assert_eq!(
        post_start_thread(&environment(), "c9", "Questions"),
        call(
            HttpMethod::Post,
            "https://discord.com/api/v10/channels/c9/threads",
            Payload::Thread {
                name: "Questions".to_string(),
                type_: 11,
                auto_archive_duration: 60,
            },
        )
    );
}

#[test]
fn asking_for_a_completion() {
    let request = ChatCompletionRequest {
        model: "gpt-3.5-turbo".to_string(),
        messages: vec![ChatCompletionMessage::user("hi")],
        stream: Some(true),
    };
    assert_eq!(
        post_chat_completions(&environment(), request.clone()),
        OutboundRequest {
            method: HttpMethod::Post,
            url: "https://api.openai.com/v1/chat/completions".to_string(),
            authorization: "Bearer api-key".to_string(),
            query: Vec::new(),
            payload: Payload::Completion(request),
        }
    );
}
