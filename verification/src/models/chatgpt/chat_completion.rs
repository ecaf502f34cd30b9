//! Requests to the chat-completion service, its answers, and the pieces of
//! a streamed answer.

use vstd::prelude::*;
use vstd::std_specs::convert::FromSpecImpl;
use crate::json::{decode_each, Json, JsonModel};
use crate::models::dynamo::discord_command::{
    ChatCommand,
    ChatCommandMessage,
    ChatCommandMessageView,
    ChatCommandView,
};

verus! {

/// One message of a prompt: who speaks, and what.
#[derive(Debug, Clone, PartialEq)]
pub struct ChatCompletionMessage {
    pub role: String,
    pub content: String,
}

/// Mathematical model of a [`ChatCompletionMessage`].
pub ghost struct ChatCompletionMessageView {
    pub role: Seq<char>,
    pub content: Seq<char>,
}

impl ChatCompletionMessageView {
    /// The prompt message that a turn of a conversation becomes.
    pub open spec fn of_turn(turn: ChatCommandMessageView) -> ChatCompletionMessageView {
        match turn {
            ChatCommandMessageView::User { content } => ChatCompletionMessageView {
                role: "user"@,
                content,
            },
            ChatCommandMessageView::Assistant { content } => ChatCompletionMessageView {
                role: "assistant"@,
                content,
            },
        }
    }
}

impl View for ChatCompletionMessage {
    type V = ChatCompletionMessageView;

    open spec fn view(&self) -> ChatCompletionMessageView {
        ChatCompletionMessageView { role: self.role@, content: self.content@ }
    }
}

impl DeepView for ChatCompletionMessage {
    type V = ChatCompletionMessageView;

    open spec fn deep_view(&self) -> ChatCompletionMessageView {
        self@
    }
}

impl ChatCompletionMessage {
    /// An instruction to the model.
    pub fn system(content: &str) -> (message: ChatCompletionMessage)
        ensures
            message@ == (ChatCompletionMessageView { role: "system"@, content: content@ }),
    {
        ChatCompletionMessage { role: "system".to_owned(), content: content.to_owned() }
    }

    /// Something the model said earlier.
    pub fn assistant(content: &str) -> (message: ChatCompletionMessage)
        ensures
            message@ == (ChatCompletionMessageView { role: "assistant"@, content: content@ }),
    {
        ChatCompletionMessage { role: "assistant".to_owned(), content: content.to_owned() }
    }

    /// Something a user said.
    pub fn user(content: &str) -> (message: ChatCompletionMessage)
        ensures
            message@ == (ChatCompletionMessageView { role: "user"@, content: content@ }),
    {
        ChatCompletionMessage { role: "user".to_owned(), content: content.to_owned() }
    }
}

/// One alternative of a complete answer.
#[derive(Debug, Clone, PartialEq)]
pub struct ChatCompletionChoice {
    pub index: u32,
    pub finish_reason: Option<String>,
    pub message: ChatCompletionMessage,
}

/// The words that one piece of a streamed answer adds.
#[derive(Debug, Clone, PartialEq)]
pub struct ChatCompletionChunkDelta {
    pub role: Option<String>,
    pub content: Option<String>,
}

/// Mathematical model of a [`ChatCompletionChunkDelta`].
pub ghost struct ChatCompletionChunkDeltaView {
    pub role: Option<Seq<char>>,
    pub content: Option<Seq<char>>,
}

impl ChatCompletionChunkDeltaView {
    /// The delta that a JSON object describes: `role` and `content` are
    /// strings, and either may be missing or `null`.
    pub open spec fn of_json(json: JsonModel) -> Option<ChatCompletionChunkDeltaView> {
        if !json.is_object() {
            None
        } else {
            match (json.optional_text("role"@), json.optional_text("content"@)) {
                (Some(role), Some(content)) => Some(ChatCompletionChunkDeltaView { role, content }),
                _ => None,
            }
        }
    }
}

impl View for ChatCompletionChunkDelta {
    type V = ChatCompletionChunkDeltaView;

    open spec fn view(&self) -> ChatCompletionChunkDeltaView {
        ChatCompletionChunkDeltaView {
            role: self.role.deep_view(),
            content: self.content.deep_view(),
        }
    }
}

impl DeepView for ChatCompletionChunkDelta {
    type V = ChatCompletionChunkDeltaView;

    open spec fn deep_view(&self) -> ChatCompletionChunkDeltaView {
        self@
    }
}

impl ChatCompletionChunkDelta {
    /// Reads a delta from a JSON object.
    pub fn from_json(json: &Json) -> (delta: Option<ChatCompletionChunkDelta>)
        ensures
            delta.deep_view() == ChatCompletionChunkDeltaView::of_json(json@),
    {
        if !json.is_object() {
            return None;
        }
        let role = match json.optional_text("role") {
            Some(role) => role,
            None => { return None; },
        };
        let content = match json.optional_text("content") {
            Some(content) => content,
            None => { return None; },
        };
        Some(ChatCompletionChunkDelta { role, content })
    }
}

/// One alternative of a piece of a streamed answer.
#[derive(Debug, Clone, PartialEq)]
pub struct ChatCompletionChunkChoice {
    pub index: u32,
    pub delta: ChatCompletionChunkDelta,
    pub finish_reason: Option<String>,
}

/// Mathematical model of a [`ChatCompletionChunkChoice`].
pub ghost struct ChatCompletionChunkChoiceView {
    pub index: u32,
    pub delta: ChatCompletionChunkDeltaView,
    pub finish_reason: Option<Seq<char>>,
}

impl ChatCompletionChunkChoiceView {
    /// The choice that a JSON object describes: `index` is a number,
    /// `delta` a delta, and `finish_reason` a string that may be missing or
    /// `null`.
    pub open spec fn of_json(json: JsonModel) -> Option<ChatCompletionChunkChoiceView> {
        match (
            json.required_unsigned32("index"@),
            json.member("delta"@),
            json.optional_text("finish_reason"@),
        ) {
            (Some(index), Some(delta_json), Some(finish_reason)) => {
                match ChatCompletionChunkDeltaView::of_json(delta_json) {
                    Some(delta) => Some(
                        ChatCompletionChunkChoiceView { index, delta, finish_reason },
                    ),
                    None => None,
                }
            },
            _ => None,
        }
    }
}

impl View for ChatCompletionChunkChoice {
    type V = ChatCompletionChunkChoiceView;

    open spec fn view(&self) -> ChatCompletionChunkChoiceView {
        ChatCompletionChunkChoiceView {
            index: self.index,
            delta: self.delta@,
            finish_reason: self.finish_reason.deep_view(),
        }
    }
}

impl DeepView for ChatCompletionChunkChoice {
    type V = ChatCompletionChunkChoiceView;

    open spec fn deep_view(&self) -> ChatCompletionChunkChoiceView {
        self@
    }
}

impl ChatCompletionChunkChoice {
    /// Reads a choice from a JSON object.
    pub fn from_json(json: &Json) -> (choice: Option<ChatCompletionChunkChoice>)
        ensures
            choice.deep_view() == ChatCompletionChunkChoiceView::of_json(json@),
    {
        let index = match json.required_unsigned32("index") {
            Some(index) => index,
            None => { return None; },
        };
        let delta_json = match json.member("delta") {
            Some(delta_json) => delta_json,
            None => { return None; },
        };
        let finish_reason = match json.optional_text("finish_reason") {
            Some(finish_reason) => finish_reason,
            None => { return None; },
        };
        match ChatCompletionChunkDelta::from_json(delta_json) {
            Some(delta) => Some(ChatCompletionChunkChoice { index, delta, finish_reason }),
            None => None,
        }
    }
}

/// How many tokens an answer cost.
#[derive(Debug, Clone, PartialEq)]
pub struct ChatCompletionUsage {
    prompt_tokens: u32,
    completion_tokens: u32,
    total_tokens: u32,
}

impl ChatCompletionUsage {
    /// A usage report with the three counts as given.
    pub fn new(prompt_tokens: u32, completion_tokens: u32, total_tokens: u32) -> (usage:
        ChatCompletionUsage)
        ensures
            usage.prompt() == prompt_tokens,
            usage.completion() == completion_tokens,
            usage.total() == total_tokens,
    {
        ChatCompletionUsage { prompt_tokens, completion_tokens, total_tokens }
    }

    /// Tokens of the prompt.
    pub closed spec fn prompt(&self) -> u32 {
        self.prompt_tokens
    }

    /// Tokens of the answer.
    pub closed spec fn completion(&self) -> u32 {
        self.completion_tokens
    }

    /// Tokens in all, as the service reported them.
    pub closed spec fn total(&self) -> u32 {
        self.total_tokens
    }
}

/// A complete answer.
#[derive(Debug, Clone, PartialEq)]
pub struct ChatCompletionResponse {
    pub id: String,
    pub object: String,
    pub created: u32,
    pub model: String,
    pub usage: ChatCompletionUsage,
    pub choices: Vec<ChatCompletionChoice>,
}

impl ChatCompletionResponse {
    /// The number of tokens that the service reported for the whole
    /// exchange.
    pub fn get_total_token_usage(&self) -> (total: u32)
        ensures
            total == self.usage.total(),
    {
        self.usage.total_tokens
    }
}

/// One piece of a streamed answer.
#[derive(Debug, Clone, PartialEq)]
pub struct ChatCompletionChunkResponse {
    pub id: String,
    pub object: String,
    pub created: u32,
    pub model: String,
    pub choices: Vec<ChatCompletionChunkChoice>,
}

/// Mathematical model of a [`ChatCompletionChunkResponse`].
pub ghost struct ChatCompletionChunkResponseView {
    pub id: Seq<char>,
    pub object: Seq<char>,
    pub created: u32,
    pub model: Seq<char>,
    pub choices: Seq<ChatCompletionChunkChoiceView>,
}

impl ChatCompletionChunkResponseView {
    /// The piece that a JSON object describes: `id`, `object` and `model`
    /// are strings, `created` is a number and `choices` an array of
    /// choices. Other members are ignored.
    pub open spec fn of_json(json: JsonModel) -> Option<ChatCompletionChunkResponseView> {
        match (
            json.required_text("id"@),
            json.required_text("object"@),
            json.required_unsigned32("created"@),
            json.required_text("model"@),
            json.member("choices"@),
        ) {
            (Some(id), Some(object), Some(created), Some(model), Some(choices_json)) => {
                match choices_json.items() {
                    Some(items) => match decode_each(
                        items,
                        |item: JsonModel| ChatCompletionChunkChoiceView::of_json(item),
                    ) {
                        Some(choices) => Some(
                            ChatCompletionChunkResponseView { id, object, created, model, choices },
                        ),
                        None => None,
                    },
                    None => None,
                }
            },
            _ => None,
        }
    }

    /// The words this piece adds to the answer: the content of its first
    /// choice's delta, and nothing where there is no choice or no content.
    pub open spec fn delta_text(self) -> Seq<char> {
        if self.choices.len() == 0 {
            Seq::empty()
        } else {
            match self.choices[0].delta.content {
                Some(content) => content,
                None => Seq::empty(),
            }
        }
    }
}

impl View for ChatCompletionChunkResponse {
    type V = ChatCompletionChunkResponseView;

    open spec fn view(&self) -> ChatCompletionChunkResponseView {
        ChatCompletionChunkResponseView {
            id: self.id@,
            object: self.object@,
            created: self.created,
            model: self.model@,
            choices: self.choices.deep_view(),
        }
    }
}

impl DeepView for ChatCompletionChunkResponse {
    type V = ChatCompletionChunkResponseView;

    open spec fn deep_view(&self) -> ChatCompletionChunkResponseView {
        self@
    }
}

impl ChatCompletionChunkResponse {
    /// Reads a piece of a streamed answer from a JSON object.
    #[verifier::loop_isolation(false)]
    pub fn from_json(json: &Json) -> (chunk: Option<ChatCompletionChunkResponse>)
        ensures
            chunk.deep_view() == ChatCompletionChunkResponseView::of_json(json@),
    {
        let id = match json.required_text("id") {
            Some(id) => id,
            None => { return None; },
        };
        let object = match json.required_text("object") {
            Some(object) => object,
            None => { return None; },
        };
        let created = match json.required_unsigned32("created") {
            Some(created) => created,
            None => { return None; },
        };
        let model = match json.required_text("model") {
            Some(model) => model,
            None => { return None; },
        };
        let items = match json.member("choices") {
            Some(choices_json) => match choices_json.items() {
                Some(items) => items,
                None => { return None; },
            },
            None => { return None; },
        };
        let ghost decode = |item: JsonModel| ChatCompletionChunkChoiceView::of_json(item);
        let mut choices: Vec<ChatCompletionChunkChoice> = Vec::new();
        let mut i: usize = 0;
        while i < items.len()
            invariant
                i <= items.len(),
                choices.len() == i,
                forall|k: int| 0 <= k < i ==> decode(#[trigger] items.deep_view()[k]) == Some(choices[k]@),
            decreases items.len() - i,
        {
            match ChatCompletionChunkChoice::from_json(&items[i]) {
                Some(choice) => {
                    choices.push(choice);
                },
                None => {
                    assert(decode(items.deep_view()[i as int]) is None);
                    return None;
                },
            }
            i += 1;
        }
        proof {
            let decoded = decode_each(items.deep_view(), decode);
            assert(decoded is Some);
            assert(decoded->Some_0 =~= choices.deep_view());
        }
        Some(ChatCompletionChunkResponse { id, object, created, model, choices })
    }

    /// The words this piece adds to the answer.
    pub fn delta_text(&self) -> (text: &str)
        ensures
            text@ == self@.delta_text(),
    {
        proof {
            reveal_strlit("");
            assert(""@ =~= Seq::<char>::empty());
        }
        if self.choices.len() == 0 {
            ""
        } else {
            match &self.choices[0].delta.content {
                Some(content) => content.as_str(),
                None => "",
            }
        }
    }
}

/// A prompt for the chat-completion service.
#[derive(Debug, Clone, PartialEq)]
pub struct ChatCompletionRequest {
    pub model: String,
    pub messages: Vec<ChatCompletionMessage>,
    /// Whether the answer is to be streamed piece by piece.
    pub stream: Option<bool>,
}

/// Mathematical model of a [`ChatCompletionRequest`].
pub ghost struct ChatCompletionRequestView {
    pub model: Seq<char>,
    pub messages: Seq<ChatCompletionMessageView>,
    pub stream: Option<bool>,
}

impl ChatCompletionRequestView {
    /// The prompt for a chat command: the topic as the system's
    /// instruction (a request for brevity where there is no topic), then
    /// the conversation turn by turn, with streaming switched on.
    pub open spec fn of_command(command: ChatCommandView) -> ChatCompletionRequestView {
        let instruction = match command.topic {
            Some(topic) => topic,
            None => "You're concise"@,
        };
        ChatCompletionRequestView {
            model: "gpt-3.5-turbo"@,
            messages: seq![ChatCompletionMessageView { role: "system"@, content: instruction }]
                + command.messages.map_values(
                |turn: ChatCommandMessageView| ChatCompletionMessageView::of_turn(turn),
            ),
            stream: Some(true),
        }
    }
}

impl View for ChatCompletionRequest {
    type V = ChatCompletionRequestView;

    open spec fn view(&self) -> ChatCompletionRequestView {
        ChatCompletionRequestView {
            model: self.model@,
            messages: self.messages.deep_view(),
            stream: self.stream,
        }
    }
}

impl DeepView for ChatCompletionRequest {
    type V = ChatCompletionRequestView;

    open spec fn deep_view(&self) -> ChatCompletionRequestView {
        self@
    }
}

impl From<ChatCommand> for ChatCompletionRequest {
    /// The prompt that asks for the next turn of the command's
    /// conversation.
    fn from(value: ChatCommand) -> (request: ChatCompletionRequest)
        ensures
            request@ == ChatCompletionRequestView::of_command(value@),
    {
        let system_message = match &value.topic {
            Some(topic) => ChatCompletionMessage::system(topic.as_str()),
            None => ChatCompletionMessage::system("You're concise"),
        };
        let mut messages: Vec<ChatCompletionMessage> = Vec::new();
        messages.push(system_message);
        let ghost expected = ChatCompletionRequestView::of_command(value@).messages;
        let mut i: usize = 0;
        while i < value.messages.len()
            invariant
                i <= value.messages.len(),
                expected == ChatCompletionRequestView::of_command(value@).messages,
                messages.len() == i + 1,
                forall|k: int| 0 <= k < i + 1 ==> (#[trigger] messages[k])@ == expected[k],
            decreases value.messages.len() - i,
        {
            let message = match &value.messages[i] {
                ChatCommandMessage::User { content } => ChatCompletionMessage::user(
                    content.as_str(),
                ),
                ChatCommandMessage::Assistant { content } => ChatCompletionMessage::assistant(
                    content.as_str(),
                ),
            };
            assert(expected[i + 1] == ChatCompletionMessageView::of_turn(value.messages[i as int]@));
            messages.push(message);
            i += 1;
        }
        assert(messages.deep_view() =~= expected);
        ChatCompletionRequest { model: "gpt-3.5-turbo".to_owned(), messages, stream: Some(true) }
    }
}

impl FromSpecImpl<ChatCommand> for ChatCompletionRequest {
    open spec fn obeys_from_spec() -> bool {
        false
    }

    open spec fn from_spec(value: ChatCommand) -> ChatCompletionRequest {
        arbitrary()
    }
}

} // verus!
