//! The record that hands a deferred command to the completion worker.

use vstd::prelude::*;

verus! {

/// One turn of a conversation, tagged by who spoke.
#[derive(Debug, Clone, PartialEq)]
pub enum ChatCommandMessage {
    User { content: String },
    Assistant { content: String },
}

/// Mathematical model of a [`ChatCommandMessage`].
pub ghost enum ChatCommandMessageView {
    User { content: Seq<char> },
    Assistant { content: Seq<char> },
}

impl ChatCommandMessageView {
    /// What was said in this turn.
    pub open spec fn text(self) -> Seq<char> {
        match self {
            ChatCommandMessageView::User { content } => content,
            ChatCommandMessageView::Assistant { content } => content,
        }
    }

    /// Whether the bot itself spoke in this turn.
    pub open spec fn by_assistant(self) -> bool {
        self is Assistant
    }

    /// Whether both turns were spoken by the same side.
    pub open spec fn same_role(self, other: ChatCommandMessageView) -> bool {
        self.by_assistant() == other.by_assistant()
    }

    /// The same speaker saying `content`.
    pub open spec fn with_text(self, content: Seq<char>) -> ChatCommandMessageView {
        match self {
            ChatCommandMessageView::User { .. } => ChatCommandMessageView::User { content },
            ChatCommandMessageView::Assistant { .. } => ChatCommandMessageView::Assistant {
                content,
            },
        }
    }
}

impl View for ChatCommandMessage {
    type V = ChatCommandMessageView;

    open spec fn view(&self) -> ChatCommandMessageView {
        match self {
            ChatCommandMessage::User { content } => ChatCommandMessageView::User {
                content: content@,
            },
            ChatCommandMessage::Assistant { content } => ChatCommandMessageView::Assistant {
                content: content@,
            },
        }
    }
}

impl DeepView for ChatCommandMessage {
    type V = ChatCommandMessageView;

    open spec fn deep_view(&self) -> ChatCommandMessageView {
        self@
    }
}

impl ChatCommandMessage {
    /// A turn spoken by the bot.
    pub fn assistant(content: &str) -> (turn: ChatCommandMessage)
        ensures
            turn@ == (ChatCommandMessageView::Assistant { content: content@ }),
    {
        ChatCommandMessage::Assistant { content: content.to_owned() }
    }

    /// A turn spoken by anyone else.
    pub fn user(content: &str) -> (turn: ChatCommandMessage)
        ensures
            turn@ == (ChatCommandMessageView::User { content: content@ }),
    {
        ChatCommandMessage::User { content: content.to_owned() }
    }
}

/// A conversation to complete, and where the answer goes.
#[derive(Debug, Clone, PartialEq)]
pub struct ChatCommand {
    pub channel_id: String,
    pub interaction_token: String,
    /// Hint for the system prompt, taken from the channel's description.
    pub topic: Option<String>,
    /// The turns in the order in which they were spoken.
    pub messages: Vec<ChatCommandMessage>,
}

/// Mathematical model of a [`ChatCommand`].
pub ghost struct ChatCommandView {
    pub channel_id: Seq<char>,
    pub interaction_token: Seq<char>,
    pub topic: Option<Seq<char>>,
    pub messages: Seq<ChatCommandMessageView>,
}

impl View for ChatCommand {
    type V = ChatCommandView;

    open spec fn view(&self) -> ChatCommandView {
        ChatCommandView {
            channel_id: self.channel_id@,
            interaction_token: self.interaction_token@,
            topic: self.topic.deep_view(),
            messages: self.messages.deep_view(),
        }
    }
}

impl DeepView for ChatCommand {
    type V = ChatCommandView;

    open spec fn deep_view(&self) -> ChatCommandView {
        self@
    }
}

impl ChatCommand {
    /// The conversation `messages` under `topic`, to be answered in
    /// `channel_id` through `interaction_token`.
    pub fn new(
        channel_id: &str,
        interaction_token: &str,
        topic: Option<String>,
        messages: Vec<ChatCommandMessage>,
    ) -> (command: ChatCommand)
        ensures
            command@ == (ChatCommandView {
                channel_id: channel_id@,
                interaction_token: interaction_token@,
                topic: topic.deep_view(),
                messages: messages.deep_view(),
            }),
    {
        ChatCommand {
            channel_id: channel_id.to_owned(),
            interaction_token: interaction_token.to_owned(),
            topic,
            messages,
        }
    }
}

/// The kinds of command a record can carry.
#[derive(Debug, Clone, PartialEq)]
pub enum CommandType {
    Chat(ChatCommand),
}

/// Mathematical model of a [`CommandType`].
pub ghost enum CommandTypeView {
    Chat(ChatCommandView),
}

impl View for CommandType {
    type V = CommandTypeView;

    open spec fn view(&self) -> CommandTypeView {
        match self {
            CommandType::Chat(command) => CommandTypeView::Chat(command@),
        }
    }
}

impl DeepView for CommandType {
    type V = CommandTypeView;

    open spec fn deep_view(&self) -> CommandTypeView {
        self@
    }
}

/// A deferred command as it is stored, keyed by the interaction's id.
#[derive(Debug, Clone, PartialEq)]
pub struct DiscordCommand {
    pub id: String,
    pub command_type: CommandType,
    /// Milliseconds since the epoch at which the record was made.
    pub created_at: u64,
    pub updated_at: u64,
}

/// Mathematical model of a [`DiscordCommand`].
pub ghost struct DiscordCommandView {
    pub id: Seq<char>,
    pub command_type: CommandTypeView,
    pub created_at: u64,
    pub updated_at: u64,
}

impl View for DiscordCommand {
    type V = DiscordCommandView;

    open spec fn view(&self) -> DiscordCommandView {
        DiscordCommandView {
            id: self.id@,
            command_type: self.command_type@,
            created_at: self.created_at,
            updated_at: self.updated_at,
        }
    }
}

impl DeepView for DiscordCommand {
    type V = DiscordCommandView;

    open spec fn deep_view(&self) -> DiscordCommandView {
        self@
    }
}

impl DiscordCommandView {
    /// The record of a chat command made at `now`.
    pub open spec fn chat(
        id: Seq<char>,
        channel_id: Seq<char>,
        interaction_token: Seq<char>,
        topic: Option<Seq<char>>,
        messages: Seq<ChatCommandMessageView>,
        now: u64,
    ) -> DiscordCommandView {
        DiscordCommandView {
            id,
            command_type: CommandTypeView::Chat(
                ChatCommandView { channel_id, interaction_token, topic, messages },
            ),
            created_at: now,
            updated_at: now,
        }
    }
}

impl DiscordCommand {
    /// The record of a chat command made at `now`: both time stamps are
    /// `now`.
    pub fn chat_command(
        id: &str,
        channel_id: &str,
        interaction_token: &str,
        topic: Option<String>,
        messages: Vec<ChatCommandMessage>,
        now: u64,
    ) -> (record: DiscordCommand)
        ensures
            record@ == DiscordCommandView::chat(
                id@,
                channel_id@,
                interaction_token@,
                topic.deep_view(),
                messages.deep_view(),
                now,
            ),
    {
        DiscordCommand {
            id: id.to_owned(),
            command_type: CommandType::Chat(
                ChatCommand::new(channel_id, interaction_token, topic, messages),
            ),
            created_at: now,
            updated_at: now,
        }
    }
}

} // verus!
