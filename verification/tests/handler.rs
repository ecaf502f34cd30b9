use discord_chatbot::auth::HeaderText;
use discord_chatbot::env::Environment;
use discord_chatbot::handler::{
    decode_interaction, event_for, function_handler, magnitude_of, post_interactions_handler,
    read_chats_limit, read_command_kind, request_for, resume, route_interaction, Action,
    CommandKind, DecodeError, Event, HandlerError, Invocation, Method, Pending, Request, Step,
};
use discord_chatbot::models::channel::Channel;
use discord_chatbot::models::discord::message::Message;
use discord_chatbot::models::discord::request::{
    CommandInteractionOption, CommandInteractionOptionValue, InteractionData, InteractionRequest,
};
use discord_chatbot::models::dynamo::discord_command::{
    ChatCommandMessage, DiscordCommand,
};
use discord_chatbot::models::response::InteractionMessage;
use discord_chatbot::models::user::DiscordUser;
use discord_chatbot::reply::{get_response, ContentType, Reply, ReplyBody};
use discord_chatbot::services::request::{HttpMethod, Payload, QueryValue};
use ed25519_dalek::{ExpandedSecretKey, PublicKey, SecretKey};

const NOW: u64 = 1677628800123;
const BOT: &str = "app-1";

fn keys() -> (ExpandedSecretKey, PublicKey) {
    let secret = SecretKey::from_bytes(&[7u8; 32]).unwrap();
    let public = PublicKey::from(&secret);
    (ExpandedSecretKey::from(&secret), public)
}

fn environment() -> Environment {
    Environment::new(BOT, "bot-token", &hex::encode(keys().1.to_bytes()), "api-key")
}

fn signed(method: Method, path: &str, body: &[u8]) -> Request {
    let (secret, public) = keys();
    let timestamp = "1677628800";
    let mut message = timestamp.as_bytes().to_vec();
    message.extend_from_slice(body);
    Request {
        method,
        path: path.to_string(),
        signature: HeaderText::Text(hex::encode(secret.sign(&message, &public).to_bytes())),
        timestamp: HeaderText::Text(timestamp.to_string()),
        body: body.to_vec(),
    }
}

fn pong() -> Step {
    Step::Reply(Reply {
        status: 200,
        content_type: ContentType::Json,
        body: ReplyBody::Interaction(discord_chatbot::models::response::InteractionResponse::new(
            1, None,
        )),
    })
}

fn deferred() -> Step {
    Step::Reply(Reply::interaction(5, None))
}

fn text_reply(status: u16, content_type: ContentType, text: &str) -> Step {
    Step::Reply(Reply { status, content_type, body: ReplyBody::Text(text.to_string()) })
}

fn command_body(name: &str, options: &str) -> Vec<u8> {
    format!(
        "{{\"id\":\"i1\",\"token\":\"tok\",\"type\":2,\"channel_id\":\"c1\",\"data\":{{\"id\":\"d1\",\"name\":\"{}\",\"type\":1{}}}}}",
        name, options
    )
    .into_bytes()
}

fn invocation(kind: CommandKind) -> Invocation {
    Invocation {
        id: "i1".to_string(),
        token: "tok".to_string(),
        channel_id: "c1".to_string(),
        kind,
        now: NOW,
    }
}

fn channel(type_: u32) -> Channel {
    Channel {
        id: "c1".to_string(),
        name: Some("general".to_string()),
        type_,
        topic: Some("Be kind".to_string()),
        guild_id: None,
        parent_id: None,
        owner_id: None,
        last_message_id: Some("m9".to_string()),
        message_count: None,
        member_count: None,
        rate_limit_per_user: None,
        total_message_sent: None,
    }
}

fn message(author: &str, content: Option<&str>) -> Message {
    Message {
        id: "m".to_string(),
        type_: 0,
        timestamp: "t".to_string(),
        content: content.map(|text| text.to_string()),
        author: DiscordUser {
            id: author.to_string(),
            username: "n".to_string(),
            discriminator: "0".to_string(),
        },
        referenced_message: None,
    }
}

fn ask(step: Step) -> (Pending, Action) {
    match step {
        Step::Ask { pending, action } => (pending, action),
        other => panic!("no question was asked: {:?}", other),
    }
}

#[test]
fn signed_ping_is_answered_with_pong() {
    let request = signed(Method::Post, "/api/interactions", b"{\"type\":1,\"id\":\"i\",\"token\":\"t\"}");
    assert_eq!(function_handler(&environment(), &request, NOW), pong());
}

#[test]
fn ping_is_answered_whatever_else_it_holds() {
    let body = b"{\"id\":\"i1\",\"token\":\"tok\",\"type\":1,\"channel_id\":\"c1\",\"data\":{\"id\":\"d\",\"name\":\"chat\",\"type\":1},\"extra\":[1,2]}";
    assert_eq!(post_interactions_handler(body, NOW), pong());
    assert_eq!(post_interactions_handler(body, 0), pong());
}

#[test]
fn request_with_invalid_signature_is_refused() {
    let mut request = signed(Method::Post, "/api/interactions", b"{\"type\":1,\"id\":\"i\",\"token\":\"t\"}");
    request.signature = HeaderText::Text("0".repeat(128));
    assert_eq!(
        function_handler(&environment(), &request, NOW),
        text_reply(401, ContentType::Html, "invalid request signature")
    );
}

#[test]
fn request_without_headers_is_refused() {
    let mut request = signed(Method::Post, "/api/interactions", &command_body("chat", ""));
    request.signature = HeaderText::Missing;
    assert_eq!(
        function_handler(&environment(), &request, NOW),
        text_reply(401, ContentType::Html, "invalid request signature")
    );
    let mut request = signed(Method::Get, "/", b"");
    request.timestamp = HeaderText::Missing;
    assert_eq!(
        function_handler(&environment(), &request, NOW),
        text_reply(401, ContentType::Html, "invalid request signature")
    );
}

#[test]
fn signed_body_that_was_changed_is_refused() {
    let mut request = signed(Method::Post, "/api/interactions", &command_body("chat", ""));
    request.body = command_body("chats", "");
    assert_eq!(
        function_handler(&environment(), &request, NOW),
        text_reply(401, ContentType::Html, "invalid request signature")
    );
}

#[test]
fn root_greets() {
    let request = signed(Method::Get, "/", b"");
    assert_eq!(
        function_handler(&environment(), &request, NOW),
        text_reply(200, ContentType::Unset, "Hello world!")
    );
    assert_eq!(Step::Reply(get_response()), text_reply(200, ContentType::Unset, "Hello world!"));
}

#[test]
fn unknown_routes_are_not_found() {
    for (method, path) in [
        (Method::Post, "/"),
        (Method::Get, "/api/interactions"),
        (Method::Other, "/api/interactions"),
        (Method::Post, "/api/interactions/"),
        (Method::Get, ""),
    ] {
        let request = signed(method, path, b"{\"type\":1,\"id\":\"i\",\"token\":\"t\"}");
        assert_eq!(
            function_handler(&environment(), &request, NOW),
            text_reply(404, ContentType::Html, "Not found")
        );
    }
}

#[test]
fn body_that_is_no_interaction_is_malformed() {
    for body in [&b"not json"[..], b"{}", b"{\"type\":1}", b""] {
        assert_eq!(
            post_interactions_handler(body, NOW),
            text_reply(400, ContentType::Html, "invalid request payload")
        );
        assert!(decode_interaction(body).is_err());
    }
}

#[test]
fn signed_malformed_body_is_a_client_error_not_an_authentication_error() {
    let request = signed(Method::Post, "/api/interactions", b"{\"type\":2");
    assert_eq!(
        function_handler(&environment(), &request, NOW),
        text_reply(400, ContentType::Html, "invalid request payload")
    );
}

#[test]
fn command_without_data_or_channel_is_malformed() {
    let no_data = b"{\"id\":\"i1\",\"token\":\"tok\",\"type\":2,\"channel_id\":\"c1\"}";
    let no_channel =
        b"{\"id\":\"i1\",\"token\":\"tok\",\"type\":2,\"data\":{\"id\":\"d\",\"name\":\"chat\",\"type\":1}}";
    assert_eq!(
        post_interactions_handler(no_data, NOW),
        text_reply(400, ContentType::Html, "invalid request payload")
    );
    assert_eq!(
        post_interactions_handler(no_channel, NOW),
        text_reply(400, ContentType::Html, "invalid request payload")
    );
}

#[test]
fn unknown_command_is_unsupported() {
    assert_eq!(
        post_interactions_handler(&command_body("dance", ""), NOW),
        text_reply(400, ContentType::Json, "Unsupported commands")
    );
    assert_eq!(
        post_interactions_handler(&command_body("Chat", ""), NOW),
        text_reply(400, ContentType::Json, "Unsupported commands")
    );
}

#[test]
fn unknown_interaction_type_is_let_through() {
    for type_ in [0u32, 3, 4, 5, 99] {
        let body = format!("{{\"id\":\"i1\",\"token\":\"tok\",\"type\":{}}}", type_);
        assert_eq!(
            post_interactions_handler(body.as_bytes(), NOW),
            text_reply(200, ContentType::Unset, "unsupported type")
        );
    }
}

#[test]
fn command_starts_by_asking_for_the_channel() {
    for (name, kind) in [
        ("chat", CommandKind::Chat),
        ("chats", CommandKind::Chats { limit: 3 }),
        ("chata", CommandKind::Chata),
    ] {
        let (pending, action) = ask(post_interactions_handler(&command_body(name, ""), NOW));
        assert_eq!(pending, Pending::Channel(invocation(kind)));
        assert_eq!(action, Action::GetChannel { channel_id: "c1".to_string() });
    }
}

#[test]
fn chats_reads_its_limit_from_option_n() {
    let cases: [(&str, u32); 7] = [
        (",\"options\":[{\"name\":\"n\",\"type\":4,\"value\":7}]", 7),
        (",\"options\":[{\"name\":\"n\",\"type\":4,\"value\":-7}]", 7),
        (",\"options\":[{\"name\":\"n\",\"type\":4,\"value\":-2147483648}]", 2147483648),
        (",\"options\":[{\"name\":\"n\",\"type\":3,\"value\":\"7\"}]", 3),
        (",\"options\":[{\"name\":\"n\",\"type\":4}]", 3),
        (",\"options\":[{\"name\":\"m\",\"type\":4,\"value\":7}]", 3),
        (",\"options\":[{\"name\":\"m\",\"type\":4,\"value\":1},{\"name\":\"n\",\"type\":4,\"value\":9},{\"name\":\"n\",\"type\":4,\"value\":2}]", 9),
    ];
    for (options, limit) in cases {
        let (pending, _) = ask(post_interactions_handler(&command_body("chats", options), NOW));
        assert_eq!(pending, Pending::Channel(invocation(CommandKind::Chats { limit })));
    }
}

#[test]
fn limit_helpers() {
    assert_eq!(magnitude_of(0), 0);
    assert_eq!(magnitude_of(5), 5);
    assert_eq!(magnitude_of(-5), 5);
    assert_eq!(magnitude_of(i32::MIN), 2147483648);
    assert_eq!(magnitude_of(i32::MAX), 2147483647);
    assert_eq!(read_chats_limit(&None), 3);
    assert_eq!(read_chats_limit(&Some(Vec::new())), 3);
    let options = vec![CommandInteractionOption {
        name: "n".to_string(),
        type_: 4,
        value: Some(CommandInteractionOptionValue::Int(42)),
    }];
    assert_eq!(read_chats_limit(&Some(options)), 42);
    let data = InteractionData {
        id: "d".to_string(),
        name: "chata".to_string(),
        type_: 1,
        options: None,
    };
    assert_eq!(read_command_kind(&data), Some(CommandKind::Chata));
}

#[test]
fn route_takes_a_decoded_interaction() {
    let request = InteractionRequest {
        id: "i1".to_string(),
        token: "tok".to_string(),
        type_: 2,
        channel_id: Some("c1".to_string()),
        data: Some(InteractionData {
            id: "d".to_string(),
            name: "chat".to_string(),
            type_: 1,
            options: None,
        }),
        user: None,
        member: None,
    };
    let (pending, action) = ask(route_interaction(request, NOW));
    assert_eq!(pending, Pending::Channel(invocation(CommandKind::Chat)));
    assert_eq!(action, Action::GetChannel { channel_id: "c1".to_string() });
}

#[test]
fn chat_in_a_text_channel_is_deferred_once_the_record_is_written() {
    let environment = environment();
    let (pending, action) = ask(post_interactions_handler(&command_body("chat", ""), NOW));
    assert_eq!(action, Action::GetChannel { channel_id: "c1".to_string() });

    let (pending, action) = ask(resume(&environment, pending, Event::Channel(channel(0))));
    assert_eq!(
        action,
        Action::GetMessage { channel_id: "c1".to_string(), message_id: "m9".to_string() }
    );

    let latest = message("u1", Some("How do I reverse a string?"));
    let (pending, action) = ask(resume(&environment, pending, Event::Message(latest)));
    assert_eq!(pending, Pending::Store);
    assert_eq!(
        action,
        Action::PutCommand(DiscordCommand::chat_command(
            "i1",
            "c1",
            "tok",
            Some("Be kind".to_string()),
            vec![ChatCommandMessage::user("How do I reverse a string?")],
            NOW,
        ))
    );

    assert_eq!(resume(&environment, pending, Event::Stored), deferred());
}

#[test]
fn chat_answers_the_message_itself_not_the_one_it_replies_to() {
    let mut latest = message("u1", Some("own"));
    latest.referenced_message =
        Some(discord_chatbot::models::discord::message::ReferencedMessage {
            id: "m0".to_string(),
            content: Some("other".to_string()),
        });
    let pending = Pending::LastMessage { invocation: invocation(CommandKind::Chat), topic: None };
    let (_, action) = ask(resume(&environment(), pending, Event::Message(latest)));
    assert_eq!(
        action,
        Action::PutCommand(DiscordCommand::chat_command(
            "i1",
            "c1",
            "tok",
            None,
            vec![ChatCommandMessage::user("own")],
            NOW,
        ))
    );
}

#[test]
fn no_deferral_when_the_store_fails() {
    let step = resume(&environment(), Pending::Store, Event::Failed("throttled".to_string()));
    assert_eq!(step, Step::Fail(HandlerError::Upstream("throttled".to_string())));
}

#[test]
fn deferral_only_in_answer_to_the_store() {
    let environment = environment();
    let states = [
        Pending::Channel(invocation(CommandKind::Chat)),
        Pending::Parent { invocation: invocation(CommandKind::Chat), last_message_id: None },
        Pending::LastMessage { invocation: invocation(CommandKind::Chat), topic: None },
        Pending::History { invocation: invocation(CommandKind::Chata), topic: None },
    ];
    for pending in states {
        assert_eq!(
            resume(&environment, pending, Event::Stored),
            Step::Fail(HandlerError::UnexpectedEvent)
        );
    }
    for event in [
        Event::Channel(channel(0)),
        Event::Message(message("u", Some("x"))),
        Event::Messages(Vec::new()),
    ] {
        assert_eq!(
            resume(&environment, Pending::Store, event),
            Step::Fail(HandlerError::UnexpectedEvent)
        );
    }
}

#[test]
fn failed_question_fails_the_request_in_every_state() {
    let environment = environment();
    let states = [
        Pending::Channel(invocation(CommandKind::Chat)),
        Pending::Parent { invocation: invocation(CommandKind::Chat), last_message_id: None },
        Pending::LastMessage { invocation: invocation(CommandKind::Chat), topic: None },
        Pending::History { invocation: invocation(CommandKind::Chata), topic: None },
        Pending::Store,
    ];
    for pending in states {
        assert_eq!(
            resume(&environment, pending, Event::Failed("timeout".to_string())),
            Step::Fail(HandlerError::Upstream("timeout".to_string()))
        );
    }
}

#[test]
fn chat_in_a_channel_without_messages_fails() {
    let mut empty = channel(0);
    empty.last_message_id = None;
    let pending = Pending::Channel(invocation(CommandKind::Chat));
    assert_eq!(
        resume(&environment(), pending, Event::Channel(empty)),
        Step::Fail(HandlerError::NoLastMessage)
    );
}

#[test]
fn chat_on_a_message_without_text_fails() {
    let pending = Pending::LastMessage { invocation: invocation(CommandKind::Chat), topic: None };
    assert_eq!(
        resume(&environment(), pending, Event::Message(message("u", None))),
        Step::Fail(HandlerError::NoContent)
    );
}

#[test]
fn chats_reads_the_latest_messages_and_merges_them() {
    let environment = environment();
    let pending = Pending::Channel(invocation(CommandKind::Chats { limit: 4 }));
    let (pending, action) = ask(resume(&environment, pending, Event::Channel(channel(0))));
    assert_eq!(action, Action::GetMessages { channel_id: "c1".to_string(), limit: 4 });
    assert_eq!(
        pending,
        Pending::History {
            invocation: invocation(CommandKind::Chats { limit: 4 }),
            topic: Some("Be kind".to_string()),
        }
    );

    let newest_first = vec![
        message("u1", Some("d")),
        message(BOT, Some("c")),
        message("u2", Some("b")),
        message("u1", Some("a")),
    ];
    let (pending, action) = ask(resume(&environment, pending, Event::Messages(newest_first)));
    assert_eq!(pending, Pending::Store);
    assert_eq!(
        action,
        Action::PutCommand(DiscordCommand::chat_command(
            "i1",
            "c1",
            "tok",
            Some("Be kind".to_string()),
            vec![
                ChatCommandMessage::user("a\nb"),
                ChatCommandMessage::assistant("c"),
                ChatCommandMessage::user("d"),
            ],
            NOW,
        ))
    );
    assert_eq!(resume(&environment, pending, Event::Stored), deferred());
}

#[test]
fn thread_command_outside_a_thread_is_answered_at_once() {
    for type_ in [0u32, 1, 2, 5, 10, 13, 15] {
        let pending = Pending::Channel(invocation(CommandKind::Chata));
        let mut other = channel(type_);
        other.parent_id = Some("parent".to_string());
        assert_eq!(
            resume(&environment(), pending, Event::Channel(other)),
            Step::Reply(Reply::interaction(
                4,
                Some(InteractionMessage::new("Cannot use this command outside threads")),
            ))
        );
    }
}

#[test]
fn thread_command_in_a_thread_takes_the_topic_of_the_parent() {
    let environment = environment();
    for type_ in [11u32, 12] {
        let mut thread = channel(type_);
        thread.topic = None;
        thread.parent_id = Some("parent".to_string());
        let pending = Pending::Channel(invocation(CommandKind::Chata));
        let (pending, action) = ask(resume(&environment, pending, Event::Channel(thread)));
        assert_eq!(action, Action::GetChannel { channel_id: "parent".to_string() });
        assert_eq!(
            pending,
            Pending::Parent {
                invocation: invocation(CommandKind::Chata),
                last_message_id: Some("m9".to_string()),
            }
        );

        let mut parent = channel(0);
        parent.id = "parent".to_string();
        parent.topic = Some("Parent topic".to_string());
        let (pending, action) = ask(resume(&environment, pending, Event::Channel(parent)));
        assert_eq!(action, Action::GetMessages { channel_id: "c1".to_string(), limit: 100 });
        assert_eq!(
            pending,
            Pending::History {
                invocation: invocation(CommandKind::Chata),
                topic: Some("Parent topic".to_string()),
            }
        );
    }
}

#[test]
fn channel_that_is_no_text_channel_and_has_no_parent_has_no_topic() {
    let mut thread = channel(11);
    thread.parent_id = None;
    let pending = Pending::Channel(invocation(CommandKind::Chata));
    let (pending, _) = ask(resume(&environment(), pending, Event::Channel(thread)));
    assert_eq!(
        pending,
        Pending::History { invocation: invocation(CommandKind::Chata), topic: None }
    );
}

#[test]
fn chat_in_a_thread_answers_the_latest_message_of_the_thread() {
    let environment = environment();
    let mut thread = channel(11);
    thread.parent_id = Some("parent".to_string());
    thread.last_message_id = Some("m5".to_string());
    let pending = Pending::Channel(invocation(CommandKind::Chat));
    let (pending, _) = ask(resume(&environment, pending, Event::Channel(thread)));
    let mut parent = channel(0);
    parent.last_message_id = Some("other".to_string());
    let (_, action) = ask(resume(&environment, pending, Event::Channel(parent)));
    assert_eq!(
        action,
        Action::GetMessage { channel_id: "c1".to_string(), message_id: "m5".to_string() }
    );
}

#[test]
fn empty_history_gives_an_empty_conversation() {
    let pending = Pending::History { invocation: invocation(CommandKind::Chata), topic: None };
    let (_, action) = ask(resume(&environment(), pending, Event::Messages(Vec::new())));
    assert_eq!(
        action,
        Action::PutCommand(DiscordCommand::chat_command("i1", "c1", "tok", None, Vec::new(), NOW))
    );
}

#[test]
fn questions_become_calls_to_discord() {
    let environment = environment();
    let call =
        request_for(&environment, &Action::GetChannel { channel_id: "c1".to_string() }).unwrap();
    assert_eq!(call.method, HttpMethod::Get);
    assert_eq!(call.url, "https://discord.com/api/v10/channels/c1");
    assert_eq!(call.authorization, "Bot bot-token");
    assert_eq!(call.query, Vec::new());
    assert_eq!(call.payload, Payload::Empty);

    let call = request_for(
        &environment,
        &Action::GetMessage { channel_id: "c1".to_string(), message_id: "m9".to_string() },
    )
    .unwrap();
    assert_eq!(call.url, "https://discord.com/api/v10/channels/c1/messages/m9");

    let call = request_for(
        &environment,
        &Action::GetMessages { channel_id: "c1".to_string(), limit: 100 },
    )
    .unwrap();
    assert_eq!(call.url, "https://discord.com/api/v10/channels/c1/messages");
    assert_eq!(call.query, vec![("limit".to_string(), QueryValue::Number(100))]);

    let record = DiscordCommand::chat_command("i1", "c1", "tok", None, Vec::new(), NOW);
    assert_eq!(request_for(&environment, &Action::PutCommand(record)), None);
}

#[test]
fn answers_are_read_for_the_question_that_is_open() {
    let channel_body = b"{\"id\":\"c1\",\"type\":0,\"topic\":\"Be kind\"}";
    let message_body = b"{\"id\":\"m\",\"type\":0,\"timestamp\":\"t\",\"content\":\"x\",\"author\":{\"id\":\"u\",\"username\":\"n\",\"discriminator\":\"0\"}}";
    let list_body = b"[{\"id\":\"m\",\"type\":0,\"timestamp\":\"t\",\"content\":\"x\",\"author\":{\"id\":\"u\",\"username\":\"n\",\"discriminator\":\"0\"}}]";

    let awaiting_channel = Pending::Channel(invocation(CommandKind::Chat));
    match event_for(&awaiting_channel, channel_body) {
        Event::Channel(channel) => assert_eq!(channel.topic, Some("Be kind".to_string())),
        other => panic!("{:?}", other),
    }
    assert_eq!(
        event_for(&awaiting_channel, list_body),
        Event::Failed("the answer is not a channel".to_string())
    );
    assert_eq!(
        event_for(&awaiting_channel, b"<html>"),
        Event::Failed("the answer is not JSON".to_string())
    );

    let awaiting_parent =
        Pending::Parent { invocation: invocation(CommandKind::Chat), last_message_id: None };
    assert!(matches!(event_for(&awaiting_parent, channel_body), Event::Channel(_)));

    let awaiting_message =
        Pending::LastMessage { invocation: invocation(CommandKind::Chat), topic: None };
    assert_eq!(
        event_for(&awaiting_message, message_body),
        Event::Message(message("u", Some("x")))
    );
    assert_eq!(
        event_for(&awaiting_message, list_body),
        Event::Failed("the answer is not a message".to_string())
    );

    let awaiting_history =
        Pending::History { invocation: invocation(CommandKind::Chata), topic: None };
    assert_eq!(
        event_for(&awaiting_history, list_body),
        Event::Messages(vec![message("u", Some("x"))])
    );
    assert_eq!(
        event_for(&awaiting_history, message_body),
        Event::Failed("the answer is not a list of messages".to_string())
    );

    assert_eq!(
        event_for(&Pending::Store, channel_body),
        Event::Failed("no answer is awaited".to_string())
    );
}

#[test]
fn reply_knows_its_interaction_type() {
    assert_eq!(Reply::interaction(5, None).interaction_type(), Some(5));
    assert_eq!(Reply::text(200, ContentType::Unset, "x").interaction_type(), None);
}

#[test]
fn decoding_tells_bad_json_from_a_bad_interaction() {
    assert_eq!(decode_interaction(b"{\"type\":"), Err(DecodeError::NotJson));
    assert_eq!(decode_interaction(&[0xff]), Err(DecodeError::NotJson));
    assert_eq!(decode_interaction(b"{\"type\":1}"), Err(DecodeError::NotAnInteraction));
    assert_eq!(decode_interaction(b"[]"), Err(DecodeError::NotAnInteraction));
    let request = decode_interaction(b"{\"id\":\"i\",\"token\":\"t\",\"type\":1,\"more\":{}}").unwrap();
    assert_eq!(request.id, "i");
    assert_eq!(request.token, "t");
    assert_eq!(request.type_, 1);
}

#[test]
fn unknown_command_without_a_channel_is_unsupported() {
    let body =
        b"{\"id\":\"i1\",\"token\":\"tok\",\"type\":2,\"data\":{\"id\":\"d\",\"name\":\"Summarize\",\"type\":3}}";
    assert_eq!(
        post_interactions_handler(body, NOW),
        text_reply(400, ContentType::Json, "Unsupported commands")
    );
    let request = InteractionRequest {
        id: "i1".to_string(),
        token: "tok".to_string(),
        type_: 2,
        channel_id: None,
        data: Some(InteractionData {
            id: "d".to_string(),
            name: "dance".to_string(),
            type_: 1,
            options: None,
        }),
        user: None,
        member: None,
    };
    assert_eq!(
        route_interaction(request, NOW),
        text_reply(400, ContentType::Json, "Unsupported commands")
    );
}

#[test]
fn known_command_without_a_channel_is_malformed() {
    for name in ["chat", "chats", "chata"] {
        let body = format!(
            "{{\"id\":\"i1\",\"token\":\"tok\",\"type\":2,\"data\":{{\"id\":\"d\",\"name\":\"{}\",\"type\":1}}}}",
            name
        );
        assert_eq!(
            post_interactions_handler(body.as_bytes(), NOW),
            text_reply(400, ContentType::Html, "invalid request payload")
        );
    }
}
