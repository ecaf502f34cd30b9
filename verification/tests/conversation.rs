use discord_chatbot::conversation::{convert_messsages_to_chat_command_message, reverse_messages};
use discord_chatbot::models::discord::message::ReferencedMessage;
use discord_chatbot::models::discord::message::Message;
use discord_chatbot::models::dynamo::discord_command::ChatCommandMessage;
use discord_chatbot::models::user::DiscordUser;

fn message(author: &str, content: &str) -> Message {
    Message {
        id: "1".to_string(),
        type_: 0,
        timestamp: "2023-03-01T00:00:00Z".to_string(),
        content: Some(content.to_string()),
        author: DiscordUser {
            id: author.to_string(),
            username: "name".to_string(),
            discriminator: "0001".to_string(),
        },
        referenced_message: None,
    }
}

fn turn(turn: &ChatCommandMessage) -> (bool, String) {
    match turn {
        ChatCommandMessage::User { content } => (false, content.clone()),
        ChatCommandMessage::Assistant { content } => (true, content.clone()),
    }
}

#[test]
fn merge_collapses_runs_of_one_speaker() {
    let messages = vec![
        message("u1", "a"),
        message("u2", "b"),
        message("bot", "c"),
        message("u1", "d"),
    ];
    let turns = convert_messsages_to_chat_command_message(messages, "bot");
    let got: Vec<(bool, String)> = turns.iter().map(turn).collect();
    assert_eq!(
        got,
        vec![
            (false, "a\nb".to_string()),
            (true, "c".to_string()),
            (false, "d".to_string()),
        ]
    );
}

fn turns(messages: Vec<Message>) -> Vec<(bool, String)> {
    convert_messsages_to_chat_command_message(messages, "bot").iter().map(turn).collect()
}

#[test]
fn no_messages_give_no_turns() {
    assert_eq!(turns(Vec::new()), Vec::new());
}

#[test]
fn alternating_speakers_are_left_as_they_are() {
    let messages = vec![message("u1", "a"), message("bot", "b"), message("u1", "c")];
    assert_eq!(
        turns(messages),
        vec![(false, "a".to_string()), (true, "b".to_string()), (false, "c".to_string())]
    );
}

#[test]
fn run_of_the_assistant_is_merged_too() {
    let messages = vec![message("bot", "a"), message("bot", "b"), message("bot", "c")];
    assert_eq!(turns(messages), vec![(true, "a\nb\nc".to_string())]);
}

#[test]
fn merged_turns_never_have_neighbours_with_one_speaker() {
    let authors = ["u1", "u2", "bot", "bot", "u3", "bot", "u1", "u1", "u2"];
    let messages: Vec<Message> = authors.iter().map(|author| message(author, "x")).collect();
    let got = turns(messages);
    assert_eq!(got.len(), 5);
    for pair in got.windows(2) {
        assert_ne!(pair[0].0, pair[1].0);
    }
}

#[test]
fn message_without_text_says_nothing() {
    let mut silent = message("u1", "");
    silent.content = None;
    assert_eq!(turns(vec![silent]), vec![(false, "".to_string())]);
    let mut silent = message("u1", "");
    silent.content = None;
    assert_eq!(
        turns(vec![message("u2", "a"), silent, message("u1", "b")]),
        vec![(false, "a\n\nb".to_string())]
    );
}

#[test]
fn reply_speaks_the_text_of_the_message_replied_to() {
    let mut reply = message("u1", "own");
    reply.referenced_message =
        Some(ReferencedMessage { id: "m0".to_string(), content: Some("other".to_string()) });
    assert_eq!(turns(vec![reply]), vec![(false, "other".to_string())]);
}

#[test]
fn only_the_application_itself_is_the_assistant() {
    let got = convert_messsages_to_chat_command_message(
        vec![message("bot", "a"), message("other-bot", "b")],
        "other-bot",
    );
    let got: Vec<(bool, String)> = got.iter().map(turn).collect();
    assert_eq!(got, vec![(false, "a".to_string()), (true, "b".to_string())]);
}

#[test]
fn messages_are_reversed() {
    let reversed = reverse_messages(vec![message("u", "1"), message("u", "2"), message("u", "3")]);
    let contents: Vec<Option<String>> =
        reversed.into_iter().map(|message| message.content).collect();
    assert_eq!(
        contents,
        vec![Some("3".to_string()), Some("2".to_string()), Some("1".to_string())]
    );
    assert_eq!(reverse_messages(Vec::new()), Vec::new());
}
