//! The webhook: from a request to a reply, by way of the questions the bot
//! has to ask Discord and the hand-off store on the way.
//!
//! The functions here decide; they do not talk to anyone. Each returns a
//! [`Step`]: a reply, a failure, or a question together with the state in
//! which the answer is awaited. Whoever runs the bot asks the question and
//! hands the answer to [`resume`].

use vstd::prelude::*;
use crate::auth::{validate_request, verdict, HeaderText, HeaderTextView};
use crate::conversation::{
    conversation_of,
    convert_messsages_to_chat_command_message,
    reverse_messages,
};
use crate::env::{Environment, EnvironmentView};
use crate::json::{parse_json, parsed_json};
use crate::models::channel::{Channel, ChannelView};
use crate::models::discord::message::{Message, MessageView};
use crate::models::discord::request::{
    CommandInteractionOption,
    CommandInteractionOptionValue,
    CommandInteractionOptionValueView,
    CommandInteractionOptionView,
    InteractionData,
    InteractionDataView,
    InteractionRequest,
    InteractionRequestView,
};
use crate::models::dynamo::discord_command::{
    ChatCommandMessage,
    ChatCommandMessageView,
    CommandTypeView,
    DiscordCommand,
    DiscordCommandView,
};
use crate::models::response::InteractionMessage;
use crate::reply::{get_response, ContentType, Reply, ReplyBodyView, ReplyView};
use crate::services::discord_service::{
    get_get_channel,
    get_get_message,
    get_get_messages,
    messages_query,
};
use crate::services::request::{HttpMethod, OutboundRequest, OutboundRequestView, PayloadView};
use crate::endpoint::{channel_item_url, channel_message_item_url, channel_messages_url};
use crate::text::same_text;

verus! {

/// The method of a request, as far as the routes tell methods apart.
#[derive(Debug, Clone, Copy, PartialEq, Eq)]
pub enum Method {
    Get,
    Post,
    Other,
}

/// What arrived at the webhook.
#[derive(Debug, Clone, PartialEq)]
pub struct Request {
    pub method: Method,
    pub path: String,
    /// The header `X-Signature-Ed25519`.
    pub signature: HeaderText,
    /// The header `X-Signature-Timestamp`.
    pub timestamp: HeaderText,
    /// The body, byte for byte as it arrived.
    pub body: Vec<u8>,
}

/// Mathematical model of a [`Request`].
pub ghost struct RequestView {
    pub method: Method,
    pub path: Seq<char>,
    pub signature: HeaderTextView,
    pub timestamp: HeaderTextView,
    pub body: Seq<u8>,
}

impl View for Request {
    type V = RequestView;

    open spec fn view(&self) -> RequestView {
        RequestView {
            method: self.method,
            path: self.path@,
            signature: self.signature@,
            timestamp: self.timestamp@,
            body: self.body@,
        }
    }
}

/// The three commands.
#[derive(Debug, Clone, Copy, PartialEq, Eq)]
pub enum CommandKind {
    /// Answer the latest message of the channel.
    Chat,
    /// Answer the latest `limit` messages of the channel.
    Chats { limit: u32 },
    /// Answer the whole thread.
    Chata,
}

/// How many messages the thread command reads.
pub const THREAD_HISTORY: u32 = 100;

/// How many messages `chats` reads when it is not told.
pub const DEFAULT_HISTORY: u32 = 3;

/// The invocation of a command, with what is needed to answer it later.
#[derive(Debug, Clone, PartialEq)]
pub struct Invocation {
    /// The interaction's id: the key of the record.
    pub id: String,
    pub token: String,
    pub channel_id: String,
    pub kind: CommandKind,
    /// Milliseconds since the epoch at which the request arrived.
    pub now: u64,
}

/// Mathematical model of an [`Invocation`].
pub ghost struct InvocationView {
    pub id: Seq<char>,
    pub token: Seq<char>,
    pub channel_id: Seq<char>,
    pub kind: CommandKind,
    pub now: u64,
}

impl View for Invocation {
    type V = InvocationView;

    open spec fn view(&self) -> InvocationView {
        InvocationView {
            id: self.id@,
            token: self.token@,
            channel_id: self.channel_id@,
            kind: self.kind,
            now: self.now,
        }
    }
}

/// The state in which an answer is awaited.
#[derive(Debug, Clone, PartialEq)]
pub enum Pending {
    /// The channel in which the command was invoked has been asked for.
    Channel(Invocation),
    /// The channel is a thread, and its parent has been asked for.
    Parent { invocation: Invocation, last_message_id: Option<String> },
    /// The latest message of the channel has been asked for.
    LastMessage { invocation: Invocation, topic: Option<String> },
    /// The latest messages of the channel have been asked for.
    History { invocation: Invocation, topic: Option<String> },
    /// The record has been handed to the store.
    Store,
}

/// Mathematical model of a [`Pending`].
pub ghost enum PendingView {
    Channel(InvocationView),
    Parent { invocation: InvocationView, last_message_id: Option<Seq<char>> },
    LastMessage { invocation: InvocationView, topic: Option<Seq<char>> },
    History { invocation: InvocationView, topic: Option<Seq<char>> },
    Store,
}

impl View for Pending {
    type V = PendingView;

    open spec fn view(&self) -> PendingView {
        match self {
            Pending::Channel(invocation) => PendingView::Channel(invocation@),
            Pending::Parent { invocation, last_message_id } => PendingView::Parent {
                invocation: invocation@,
                last_message_id: last_message_id.deep_view(),
            },
            Pending::LastMessage { invocation, topic } => PendingView::LastMessage {
                invocation: invocation@,
                topic: topic.deep_view(),
            },
            Pending::History { invocation, topic } => PendingView::History {
                invocation: invocation@,
                topic: topic.deep_view(),
            },
            Pending::Store => PendingView::Store,
        }
    }
}

/// The answer to a question.
#[derive(Debug, Clone, PartialEq)]
pub enum Event {
    /// The channel asked for.
    Channel(Channel),
    /// The message asked for.
    Message(Message),
    /// The messages asked for, newest first.
    Messages(Vec<Message>),
    /// The store has taken the record.
    Stored,
    /// The question could not be answered.
    Failed(String),
}

/// Mathematical model of an [`Event`].
pub ghost enum EventView {
    Channel(ChannelView),
    Message(MessageView),
    Messages(Seq<MessageView>),
    Stored,
    Failed(Seq<char>),
}

impl View for Event {
    type V = EventView;

    open spec fn view(&self) -> EventView {
        match self {
            Event::Channel(channel) => EventView::Channel(channel@),
            Event::Message(message) => EventView::Message(message@),
            Event::Messages(messages) => EventView::Messages(messages.deep_view()),
            Event::Stored => EventView::Stored,
            Event::Failed(reason) => EventView::Failed(reason@),
        }
    }
}

/// A question to Discord or to the store.
#[derive(Debug, Clone, PartialEq)]
pub enum Action {
    GetChannel { channel_id: String },
    GetMessage { channel_id: String, message_id: String },
    /// The latest `limit` messages of a channel.
    GetMessages { channel_id: String, limit: u32 },
    /// Write the record, once, under its id.
    PutCommand(DiscordCommand),
}

/// Mathematical model of an [`Action`].
pub ghost enum ActionView {
    GetChannel { channel_id: Seq<char> },
    GetMessage { channel_id: Seq<char>, message_id: Seq<char> },
    GetMessages { channel_id: Seq<char>, limit: u32 },
    PutCommand(DiscordCommandView),
}

impl View for Action {
    type V = ActionView;

    open spec fn view(&self) -> ActionView {
        match self {
            Action::GetChannel { channel_id } => ActionView::GetChannel { channel_id: channel_id@ },
            Action::GetMessage { channel_id, message_id } => ActionView::GetMessage {
                channel_id: channel_id@,
                message_id: message_id@,
            },
            Action::GetMessages { channel_id, limit } => ActionView::GetMessages {
                channel_id: channel_id@,
                limit: *limit,
            },
            Action::PutCommand(record) => ActionView::PutCommand(record@),
        }
    }
}

/// Why a request could not be answered.
#[derive(Debug, Clone, PartialEq)]
pub enum HandlerError {
    /// A question could not be answered; the reason as it was given.
    Upstream(String),
    /// An answer arrived that fits no question asked.
    UnexpectedEvent,
    /// The channel has no latest message to answer.
    NoLastMessage,
    /// The message to answer has no text.
    NoContent,
}

/// Mathematical model of a [`HandlerError`].
pub ghost enum HandlerErrorView {
    Upstream(Seq<char>),
    UnexpectedEvent,
    NoLastMessage,
    NoContent,
}

impl View for HandlerError {
    type V = HandlerErrorView;

    open spec fn view(&self) -> HandlerErrorView {
        match self {
            HandlerError::Upstream(reason) => HandlerErrorView::Upstream(reason@),
            HandlerError::UnexpectedEvent => HandlerErrorView::UnexpectedEvent,
            HandlerError::NoLastMessage => HandlerErrorView::NoLastMessage,
            HandlerError::NoContent => HandlerErrorView::NoContent,
        }
    }
}

/// What the handler has decided.
#[derive(Debug, Clone, PartialEq)]
pub enum Step {
    /// The request is answered.
    Reply(Reply),
    /// The request cannot be answered.
    Fail(HandlerError),
    /// `action` is to be carried out, and its outcome handed to
    /// [`resume`] together with `pending`.
    Ask { pending: Pending, action: Action },
}

/// Mathematical model of a [`Step`].
pub ghost enum StepView {
    Reply(ReplyView),
    Fail(HandlerErrorView),
    Ask { pending: PendingView, action: ActionView },
}

impl StepView {
    /// Whether the step promises a follow-up message.
    pub open spec fn is_deferral(self) -> bool {
        self matches StepView::Reply(reply) && reply.interaction_type() == Some(5u32)
    }

    /// Whether the step writes a record.
    pub open spec fn writes_record(self) -> bool {
        self matches StepView::Ask { action, .. } && action is PutCommand
    }
}

impl View for Step {
    type V = StepView;

    open spec fn view(&self) -> StepView {
        match self {
            Step::Reply(reply) => StepView::Reply(reply@),
            Step::Fail(error) => StepView::Fail(error@),
            Step::Ask { pending, action } => StepView::Ask { pending: pending@, action: action@ },
        }
    }
}

/// The value of the first option named `name`, if there is such an option.
pub open spec fn first_option(options: Seq<CommandInteractionOptionView>, name: Seq<char>) -> Option<
    CommandInteractionOptionView,
>
    decreases options.len(),
{
    if options.len() == 0 {
        None
    } else if options[0].name == name {
        Some(options[0])
    } else {
        first_option(options.drop_first(), name)
    }
}

/// The size of `number` without its sign.
pub open spec fn magnitude(number: i32) -> u32 {
    if number >= 0 {
        number as u32
    } else {
        (-number) as u32
    }
}

/// How many messages `chats` is to read: the size of the integer given as
/// option `n`, and 3 where no integer is given.
pub open spec fn chats_limit(options: Option<Seq<CommandInteractionOptionView>>) -> u32 {
    match options {
        Some(options) => match first_option(options, "n"@) {
            Some(option) => match option.value {
                Some(CommandInteractionOptionValueView::Int(number)) => magnitude(number),
                _ => DEFAULT_HISTORY,
            },
            None => DEFAULT_HISTORY,
        },
        None => DEFAULT_HISTORY,
    }
}

/// The command that an invocation names, if it is one of the bot's.
pub open spec fn command_kind(data: InteractionDataView) -> Option<CommandKind> {
    if data.name == "chat"@ {
        Some(CommandKind::Chat)
    } else if data.name == "chats"@ {
        Some(CommandKind::Chats { limit: chats_limit(data.options) })
    } else if data.name == "chata"@ {
        Some(CommandKind::Chata)
    } else {
        None
    }
}

/// What an interaction leads to. A ping is answered at once. A command
/// must say which it is: any but the bot's three is refused as
/// unsupported, whether or not it names a channel. One of the three must
/// name its channel, and starts with a question for that channel. Other
/// types of interaction are let through with a note.
pub open spec fn route(request: InteractionRequestView, now: u64) -> StepView {
    if request.type_ == 1 {
        StepView::Reply(ReplyView::pong())
    } else if request.type_ == 2 {
        match request.data {
            Some(data) => match command_kind(data) {
                Some(kind) => match request.channel_id {
                    Some(channel_id) => StepView::Ask {
                        pending: PendingView::Channel(
                            InvocationView {
                                id: request.id,
                                token: request.token,
                                channel_id,
                                kind,
                                now,
                            },
                        ),
                        action: ActionView::GetChannel { channel_id },
                    },
                    None => StepView::Reply(ReplyView::malformed()),
                },
                None => StepView::Reply(ReplyView::unsupported_command()),
            },
            None => StepView::Reply(ReplyView::malformed()),
        }
    } else {
        StepView::Reply(ReplyView::unsupported_type())
    }
}

/// Why a body is no interaction.
#[derive(Debug, Clone, Copy, PartialEq, Eq)]
pub enum DecodeError {
    /// The body is not a JSON document.
    NotJson,
    /// The document lacks a member that an interaction must have, or
    /// holds a member of the wrong kind.
    NotAnInteraction,
}

/// The interaction written in `body`, or why there is none.
pub open spec fn decoded(body: Seq<u8>) -> Result<InteractionRequestView, DecodeError> {
    match parsed_json(body) {
        Some(json) => match InteractionRequestView::of_json(json) {
            Some(request) => Ok(request),
            None => Err(DecodeError::NotAnInteraction),
        },
        None => Err(DecodeError::NotJson),
    }
}

/// What the body of a request to the interactions route leads to.
pub open spec fn interactions(body: Seq<u8>, now: u64) -> StepView {
    match decoded(body) {
        Ok(request) => route(request, now),
        Err(_) => StepView::Reply(ReplyView::malformed()),
    }
}

/// What a request leads to: nothing but a refusal unless its signature
/// passes; then the greeting, the interactions route, or no route at all.
pub open spec fn handle(environment: EnvironmentView, request: RequestView, now: u64) -> StepView {
    if verdict(
        environment.discord_bot_public_key,
        request.signature,
        request.timestamp,
        request.body,
    ) is Err {
        StepView::Reply(ReplyView::unauthorized())
    } else if request.method == Method::Get && request.path == "/"@ {
        StepView::Reply(ReplyView::greeting())
    } else if request.method == Method::Post && request.path == "/api/interactions"@ {
        interactions(request.body, now)
    } else {
        StepView::Reply(ReplyView::not_found())
    }
}

/// The record of `invocation` is handed to the store.
pub open spec fn store(
    invocation: InvocationView,
    topic: Option<Seq<char>>,
    messages: Seq<ChatCommandMessageView>,
) -> StepView {
    StepView::Ask {
        pending: PendingView::Store,
        action: ActionView::PutCommand(
            DiscordCommandView::chat(
                invocation.id,
                invocation.channel_id,
                invocation.token,
                topic,
                messages,
                invocation.now,
            ),
        ),
    }
}

/// With the topic known, the messages to answer are asked for: the latest
/// one, the latest few, or the latest hundred.
pub open spec fn proceed(
    invocation: InvocationView,
    topic: Option<Seq<char>>,
    last_message_id: Option<Seq<char>>,
) -> StepView {
    match invocation.kind {
        CommandKind::Chat => match last_message_id {
            Some(message_id) => StepView::Ask {
                pending: PendingView::LastMessage { invocation, topic },
                action: ActionView::GetMessage { channel_id: invocation.channel_id, message_id },
            },
            None => StepView::Fail(HandlerErrorView::NoLastMessage),
        },
        CommandKind::Chats { limit } => StepView::Ask {
            pending: PendingView::History { invocation, topic },
            action: ActionView::GetMessages { channel_id: invocation.channel_id, limit },
        },
        CommandKind::Chata => StepView::Ask {
            pending: PendingView::History { invocation, topic },
            action: ActionView::GetMessages {
                channel_id: invocation.channel_id,
                limit: THREAD_HISTORY,
            },
        },
    }
}

/// What the channel of an invocation leads to. The thread command is
/// refused outside a thread. Else the topic is that of a text channel,
/// that of the parent otherwise, which is then asked for, and none where
/// there is no parent.
pub open spec fn on_channel(invocation: InvocationView, channel: ChannelView) -> StepView {
    if invocation.kind == CommandKind::Chata && !channel.is_thread() {
        StepView::Reply(ReplyView::outside_thread())
    } else if channel.type_ == 0 {
        proceed(invocation, channel.topic, channel.last_message_id)
    } else {
        match channel.parent_id {
            Some(parent_id) => StepView::Ask {
                pending: PendingView::Parent {
                    invocation,
                    last_message_id: channel.last_message_id,
                },
                action: ActionView::GetChannel { channel_id: parent_id },
            },
            None => proceed(invocation, None, channel.last_message_id),
        }
    }
}

/// What an answer leads to in the state in which it was awaited. A
/// question that failed fails the request, and so does an answer to a
/// question that was not asked. Only the store's word that the record is
/// written makes the promise of a follow-up.
pub open spec fn resumed(application_id: Seq<char>, pending: PendingView, event: EventView) -> StepView {
    match (pending, event) {
        (_, EventView::Failed(reason)) => StepView::Fail(HandlerErrorView::Upstream(reason)),
        (PendingView::Channel(invocation), EventView::Channel(channel)) => on_channel(
            invocation,
            channel,
        ),
        (PendingView::Parent { invocation, last_message_id }, EventView::Channel(parent)) => proceed(
            invocation,
            parent.topic,
            last_message_id,
        ),
        (PendingView::LastMessage { invocation, topic }, EventView::Message(message)) => {
            match message.content {
                Some(content) => store(
                    invocation,
                    topic,
                    seq![ChatCommandMessageView::User { content }],
                ),
                None => StepView::Fail(HandlerErrorView::NoContent),
            }
        },
        (PendingView::History { invocation, topic }, EventView::Messages(messages)) => store(
            invocation,
            topic,
            conversation_of(messages, application_id),
        ),
        (PendingView::Store, EventView::Stored) => StepView::Reply(ReplyView::deferred()),
        _ => StepView::Fail(HandlerErrorView::UnexpectedEvent),
    }
}

/// Authentication comes first: a request whose signature does not pass is
/// refused with status 401 whatever its route and body, and nothing is
/// asked or written on its behalf. A body that is no interaction is a
/// different fault: under a signature that passes it is refused with
/// status 400.
pub proof fn lemma_authentication_first(environment: EnvironmentView, request: RequestView, now: u64)
    ensures
        verdict(
            environment.discord_bot_public_key,
            request.signature,
            request.timestamp,
            request.body,
        ) is Err ==> handle(environment, request, now) == StepView::Reply(
            ReplyView::unauthorized(),
        ),
        ReplyView::unauthorized().status == 401,
        verdict(
            environment.discord_bot_public_key,
            request.signature,
            request.timestamp,
            request.body,
        ) is Ok && request.method == Method::Post && request.path == "/api/interactions"@
            && decoded(request.body) is Err ==> handle(environment, request, now)
            == StepView::Reply(ReplyView::malformed()),
        ReplyView::malformed().status == 400,
{
}

/// The command alone decides whether it is supported: an invocation of a
/// command that is none of the bot's three is answered with status 400 and
/// "Unsupported commands", with or without a channel, and nothing is asked
/// or written.
pub proof fn lemma_unsupported_command(request: InteractionRequestView, now: u64)
    requires
        request.type_ == 2,
        request.data matches Some(data) && data.name != "chat"@ && data.name != "chats"@
            && data.name != "chata"@,
    ensures
        route(request, now) == StepView::Reply(ReplyView::unsupported_command()),
        ReplyView::unsupported_command().status == 400,
        ReplyView::unsupported_command().body == ReplyBodyView::Text("Unsupported commands"@),
{
}

/// A ping is answered with a pong, whatever else the request holds.
pub proof fn lemma_ping(request: InteractionRequestView, now: u64)
    requires
        request.type_ == 1,
    ensures
        route(request, now) == StepView::Reply(ReplyView::pong()),
{
}

/// A follow-up is promised only on the store's word that the record is
/// written: no request is answered with the promise straight away, and no
/// other answer in no other state leads to it. Where the store fails, the
/// request fails.
pub proof fn lemma_deferral(
    environment: EnvironmentView,
    request: RequestView,
    now: u64,
    pending: PendingView,
    event: EventView,
)
    ensures
        !handle(environment, request, now).is_deferral(),
        resumed(environment.discord_application_id, pending, event).is_deferral() <==> pending
            is Store && event is Stored,
        pending is Store && event is Stored ==> resumed(
            environment.discord_application_id,
            pending,
            event,
        ) == StepView::Reply(ReplyView::deferred()),
        event is Failed ==> resumed(environment.discord_application_id, pending, event) is Fail,
{
}

/// What a run of the handler has come to: the step at which it stands, and
/// the questions that were asked and answered on the way, in order.
pub ghost struct Trace {
    pub step: StepView,
    pub actions: Seq<ActionView>,
}

/// The run that starts at `step` and is handed `events` as the answers to
/// its questions, one after the other, for as long as it asks.
pub open spec fn play(application_id: Seq<char>, step: StepView, events: Seq<EventView>) -> Trace
    decreases events.len(),
{
    match step {
        StepView::Ask { pending, action } => if events.len() > 0 {
            let rest = play(
                application_id,
                resumed(application_id, pending, events[0]),
                events.drop_first(),
            );
            Trace { step: rest.step, actions: seq![action] + rest.actions }
        } else {
            Trace { step, actions: Seq::empty() }
        },
        _ => Trace { step, actions: Seq::empty() },
    }
}

/// The topic under which an invocation in `channel` is answered: that of a
/// text channel, else that of the parent where there is one.
pub open spec fn topic_of(channel: ChannelView, parent: ChannelView) -> Option<Seq<char>> {
    if channel.type_ == 0 {
        channel.topic
    } else if channel.parent_id is Some {
        parent.topic
    } else {
        None
    }
}

/// The answers that carry an invocation in `channel` to the promise of a
/// follow-up: the channel, its parent where the topic is taken from
/// there, the message or the messages to answer, and the store's word.
pub open spec fn good_answers(
    invocation: InvocationView,
    channel: ChannelView,
    parent: ChannelView,
    message: MessageView,
    messages: Seq<MessageView>,
) -> Seq<EventView> {
    let fetched = if invocation.kind == CommandKind::Chat {
        EventView::Message(message)
    } else {
        EventView::Messages(messages)
    };
    if channel.type_ != 0 && channel.parent_id is Some {
        seq![EventView::Channel(channel), EventView::Channel(parent), fetched, EventView::Stored]
    } else {
        seq![EventView::Channel(channel), fetched, EventView::Stored]
    }
}

/// A follow-up is promised only after exactly one record has been written,
/// and that record is the invocation's own: whatever the answers, a run
/// from an interaction that ends in the promise has asked for the channel
/// first, has written the record last and only then, under the
/// interaction's id, channel and token and stamped with the time of
/// arrival, and has had the store's word for it.
pub proof fn lemma_one_record_before_deferral(
    application_id: Seq<char>,
    request: InteractionRequestView,
    now: u64,
    events: Seq<EventView>,
)
    requires
        play(application_id, route(request, now), events).step.is_deferral(),
    ensures
        ({
            let trace = play(application_id, route(request, now), events);
            let last = trace.actions.len() - 1;
            &&& request.type_ == 2
            &&& request.data is Some
            &&& request.channel_id is Some
            &&& 3 <= trace.actions.len() <= 4
            &&& trace.actions.len() <= events.len()
            &&& events[last] is Stored
            &&& trace.actions[0] == (ActionView::GetChannel {
                channel_id: request.channel_id->Some_0,
            })
            &&& forall|i: int| 0 <= i < last ==> !(#[trigger] trace.actions[i] is PutCommand)
            &&& trace.actions[last] matches ActionView::PutCommand(record) && record.id
                == request.id && record.created_at == now && record.updated_at == now && (
            record.command_type matches CommandTypeView::Chat(chat) && chat.channel_id
                == request.channel_id->Some_0 && chat.interaction_token == request.token)
        }),
{
    reveal_with_fuel(play, 6);
    let first = route(request, now);
    let e1 = events.drop_first();
    let e2 = e1.drop_first();
    let e3 = e2.drop_first();
    let e4 = e3.drop_first();
    assert(events.len() > 0 ==> e1.len() == events.len() - 1);
    assert(e1.len() > 0 ==> e1[0] == events[1]);
    assert(e2.len() > 0 ==> e2[0] == events[2]);
    assert(e3.len() > 0 ==> e3[0] == events[3]);
}

/// Success is owed: when the channel, its parent where one is asked for,
/// the message or messages and the store all answer, a command of the
/// bot's is answered with the promise of a follow-up, and the record
/// written holds the conversation under the topic. For `chat` the channel
/// must have a latest message, and that message a text; the thread
/// command must be used in a thread.
pub proof fn lemma_good_answers_lead_to_deferral(
    application_id: Seq<char>,
    invocation: InvocationView,
    channel: ChannelView,
    parent: ChannelView,
    message: MessageView,
    messages: Seq<MessageView>,
)
    requires
        invocation.kind == CommandKind::Chata ==> channel.is_thread(),
        invocation.kind == CommandKind::Chat ==> channel.last_message_id is Some
            && message.content is Some,
    ensures
        ({
            let first = StepView::Ask {
                pending: PendingView::Channel(invocation),
                action: ActionView::GetChannel { channel_id: invocation.channel_id },
            };
            let trace = play(
                application_id,
                first,
                good_answers(invocation, channel, parent, message, messages),
            );
            let turns = if invocation.kind == CommandKind::Chat {
                seq![ChatCommandMessageView::User { content: message.content->Some_0 }]
            } else {
                conversation_of(messages, application_id)
            };
            &&& trace.step == StepView::Reply(ReplyView::deferred())
            &&& trace.actions.last() == ActionView::PutCommand(
                DiscordCommandView::chat(
                    invocation.id,
                    invocation.channel_id,
                    invocation.token,
                    topic_of(channel, parent),
                    turns,
                    invocation.now,
                ),
            )
        }),
{
    reveal_with_fuel(play, 6);
    let events = good_answers(invocation, channel, parent, message, messages);
    let e1 = events.drop_first();
    let e2 = e1.drop_first();
    let e3 = e2.drop_first();
    assert(e1[0] == events[1]);
    assert(e2[0] == events[2]);
    if events.len() == 4 {
        assert(e3[0] == events[3]);
    }
}

/// Whether `step` is no reply, or a reply whose interaction answer, if it
/// carries one, is a pong without data, a message shown at once, or the
/// promise of a follow-up without data.
pub open spec fn answers_properly(step: StepView) -> bool {
    step matches StepView::Reply(reply) ==> (reply.body matches ReplyBodyView::Interaction(answer)
        ==> reply.status == 200 && ((answer.type_ == 1 && answer.data is None) || (answer.type_
        == 4 && answer.data is Some) || (answer.type_ == 5 && answer.data is None)))
}

/// Every answer to an interaction that the handler gives is of one of the
/// three kinds it knows, and carries a message exactly when it is shown at
/// once.
pub proof fn lemma_answers(
    environment: EnvironmentView,
    request: RequestView,
    now: u64,
    pending: PendingView,
    event: EventView,
)
    ensures
        answers_properly(handle(environment, request, now)),
        answers_properly(resumed(environment.discord_application_id, pending, event)),
{
}

/// A record is written only in answer to the message or the messages that
/// were asked for, and then the store's word is awaited.
pub proof fn lemma_record_then_store(
    application_id: Seq<char>,
    pending: PendingView,
    event: EventView,
)
    requires
        resumed(application_id, pending, event).writes_record(),
    ensures
        resumed(application_id, pending, event)->Ask_pending is Store,
        (pending is LastMessage && event is Message) || (pending is History && event is Messages),
{
}

/// The thread command outside a thread is answered at once with the
/// guidance, and nothing is asked or written.
pub proof fn lemma_thread_only(
    application_id: Seq<char>,
    invocation: InvocationView,
    channel: ChannelView,
)
    requires
        invocation.kind == CommandKind::Chata,
        channel.type_ != 11,
        channel.type_ != 12,
    ensures
        resumed(application_id, PendingView::Channel(invocation), EventView::Channel(channel))
            == StepView::Reply(ReplyView::outside_thread()),
        !resumed(
            application_id,
            PendingView::Channel(invocation),
            EventView::Channel(channel),
        ).writes_record(),
        ReplyView::outside_thread().interaction_type() == Some(4u32),
{
}

/// The size of `number` without its sign.
pub fn magnitude_of(number: i32) -> (size: u32)
    ensures
        size == magnitude(number),
{
    if number >= 0 {
        number as u32
    } else {
        let wide: i64 = number as i64;
        (0 - wide) as u32
    }
}

/// How many messages `chats` is to read.
#[verifier::loop_isolation(false)]
pub fn read_chats_limit(options: &Option<Vec<CommandInteractionOption>>) -> (limit: u32)
    ensures
        limit == chats_limit(options.deep_view()),
{
    match options {
        Some(options) => {
            let ghost all = options.deep_view();
            let mut i: usize = 0;
            assert(all.skip(0) =~= all);
            while i < options.len()
                invariant
                    i <= options.len(),
                    all == options.deep_view(),
                    first_option(all, "n"@) == first_option(all.skip(i as int), "n"@),
                decreases options.len() - i,
            {
                assert(all.skip(i as int)[0] == options[i as int]@);
                assert(all.skip(i as int).drop_first() =~= all.skip(i + 1));
                if same_text(options[i].name.as_str(), "n") {
                    return match &options[i].value {
                        Some(CommandInteractionOptionValue::Int(number)) => magnitude_of(*number),
                        _ => DEFAULT_HISTORY,
                    };
                }
                i += 1;
            }
            DEFAULT_HISTORY
        },
        None => DEFAULT_HISTORY,
    }
}

/// The command that an invocation names, if it is one of the bot's.
pub fn read_command_kind(data: &InteractionData) -> (kind: Option<CommandKind>)
    ensures
        kind == command_kind(data@),
{
    if same_text(data.name.as_str(), "chat") {
        Some(CommandKind::Chat)
    } else if same_text(data.name.as_str(), "chats") {
        Some(CommandKind::Chats { limit: read_chats_limit(&data.options) })
    } else if same_text(data.name.as_str(), "chata") {
        Some(CommandKind::Chata)
    } else {
        None
    }
}

/// Decides what an interaction that arrived at `now` leads to.
pub fn route_interaction(request: InteractionRequest, now: u64) -> (step: Step)
    ensures
        step@ == route(request@, now),
{
    if request.type_ == 1 {
        Step::Reply(Reply::interaction(1, None))
    } else if request.type_ == 2 {
        match request.data {
            Some(data) => match read_command_kind(&data) {
                Some(kind) => match request.channel_id {
                    Some(channel_id) => {
                        let action = Action::GetChannel { channel_id: channel_id.clone() };
                        Step::Ask {
                            pending: Pending::Channel(
                                Invocation {
                                    id: request.id,
                                    token: request.token,
                                    channel_id,
                                    kind,
                                    now,
                                },
                            ),
                            action,
                        }
                    },
                    None => Step::Reply(
                        Reply::text(400, ContentType::Html, "invalid request payload"),
                    ),
                },
                None => Step::Reply(Reply::text(400, ContentType::Json, "Unsupported commands")),
            },
            None => Step::Reply(Reply::text(400, ContentType::Html, "invalid request payload")),
        }
    } else {
        Step::Reply(Reply::text(200, ContentType::Unset, "unsupported type"))
    }
}

/// Reads the interaction written in `body`.
pub fn decode_interaction(body: &[u8]) -> (request: Result<InteractionRequest, DecodeError>)
    ensures
        match request {
            Ok(request) => decoded(body@) == Ok::<InteractionRequestView, DecodeError>(request@),
            Err(error) => decoded(body@) == Err::<InteractionRequestView, DecodeError>(error),
        },
{
    match parse_json(body) {
        Some(json) => match InteractionRequest::from_json(&json) {
            Some(request) => Ok(request),
            None => Err(DecodeError::NotAnInteraction),
        },
        None => Err(DecodeError::NotJson),
    }
}

/// Handles the body of a request to the interactions route that arrived
/// at `now`: a body that is no interaction is refused with status 400,
/// any other goes where [`route`] says.
pub fn post_interactions_handler(body: &[u8], now: u64) -> (step: Step)
    ensures
        step@ == interactions(body@, now),
{
    match decode_interaction(body) {
        Ok(request) => route_interaction(request, now),
        Err(_) => Step::Reply(Reply::text(400, ContentType::Html, "invalid request payload")),
    }
}

/// Handles a request that arrived at `now`. Whatever the route, a request
/// whose signature does not pass is refused with status 401 before its
/// body is looked at.
pub fn function_handler(environment: &Environment, request: &Request, now: u64) -> (step: Step)
    ensures
        step@ == handle(environment@, request@, now),
{
    let checked = validate_request(
        environment.discord_bot_public_key.as_str(),
        &request.signature,
        &request.timestamp,
        request.body.as_slice(),
    );
    if checked.is_err() {
        return Step::Reply(Reply::text(401, ContentType::Html, "invalid request signature"));
    }
    match request.method {
        Method::Get => {
            if same_text(request.path.as_str(), "/") {
                return Step::Reply(get_response());
            }
        },
        Method::Post => {
            if same_text(request.path.as_str(), "/api/interactions") {
                return post_interactions_handler(request.body.as_slice(), now);
            }
        },
        Method::Other => {},
    }
    Step::Reply(Reply::text(404, ContentType::Html, "Not found"))
}

/// Hands the record of `invocation` to the store.
fn store_record(invocation: Invocation, topic: Option<String>, messages: Vec<ChatCommandMessage>) -> (step:
    Step)
    ensures
        step@ == store(invocation@, topic.deep_view(), messages.deep_view()),
{
    Step::Ask {
        pending: Pending::Store,
        action: Action::PutCommand(
            DiscordCommand::chat_command(
                invocation.id.as_str(),
                invocation.channel_id.as_str(),
                invocation.token.as_str(),
                topic,
                messages,
                invocation.now,
            ),
        ),
    }
}

/// Asks for the messages that `invocation` is to answer.
fn ask_for_messages(
    invocation: Invocation,
    topic: Option<String>,
    last_message_id: Option<String>,
) -> (step: Step)
    ensures
        step@ == proceed(invocation@, topic.deep_view(), last_message_id.deep_view()),
{
    match invocation.kind {
        CommandKind::Chat => match last_message_id {
            Some(message_id) => {
                let action = Action::GetMessage {
                    channel_id: invocation.channel_id.clone(),
                    message_id,
                };
                Step::Ask { pending: Pending::LastMessage { invocation, topic }, action }
            },
            None => Step::Fail(HandlerError::NoLastMessage),
        },
        CommandKind::Chats { limit } => {
            let action = Action::GetMessages { channel_id: invocation.channel_id.clone(), limit };
            Step::Ask { pending: Pending::History { invocation, topic }, action }
        },
        CommandKind::Chata => {
            let action = Action::GetMessages {
                channel_id: invocation.channel_id.clone(),
                limit: THREAD_HISTORY,
            };
            Step::Ask { pending: Pending::History { invocation, topic }, action }
        },
    }
}

/// Decides what the channel of `invocation` leads to.
fn channel_arrived(invocation: Invocation, channel: Channel) -> (step: Step)
    ensures
        step@ == on_channel(invocation@, channel@),
{
    let outside = match invocation.kind {
        CommandKind::Chata => !channel.is_thread(),
        _ => false,
    };
    if outside {
        Step::Reply(
            Reply::interaction(
                4,
                Some(InteractionMessage::new("Cannot use this command outside threads")),
            ),
        )
    } else if channel.type_ == 0 {
        ask_for_messages(invocation, channel.topic, channel.last_message_id)
    } else {
        match channel.parent_id {
            Some(parent_id) => Step::Ask {
                pending: Pending::Parent { invocation, last_message_id: channel.last_message_id },
                action: Action::GetChannel { channel_id: parent_id },
            },
            None => ask_for_messages(invocation, None, channel.last_message_id),
        }
    }
}

/// Decides what the answer `event` leads to in the state `pending` in
/// which it was awaited.
pub fn resume(environment: &Environment, pending: Pending, event: Event) -> (step: Step)
    ensures
        step@ == resumed(environment@.discord_application_id, pending@, event@),
{
    match (pending, event) {
        (_, Event::Failed(reason)) => Step::Fail(HandlerError::Upstream(reason)),
        (Pending::Channel(invocation), Event::Channel(channel)) => channel_arrived(
            invocation,
            channel,
        ),
        (Pending::Parent { invocation, last_message_id }, Event::Channel(parent)) => {
            ask_for_messages(invocation, parent.topic, last_message_id)
        },
        (Pending::LastMessage { invocation, topic }, Event::Message(message)) => {
            match message.content {
                Some(content) => {
                    let mut messages: Vec<ChatCommandMessage> = Vec::new();
                    messages.push(ChatCommandMessage::User { content });
                    assert(messages.deep_view() =~= seq![
                        ChatCommandMessageView::User { content: content@ },
                    ]);
                    store_record(invocation, topic, messages)
                },
                None => Step::Fail(HandlerError::NoContent),
            }
        },
        (Pending::History { invocation, topic }, Event::Messages(messages)) => {
            let oldest_first = reverse_messages(messages);
            let turns = convert_messsages_to_chat_command_message(
                oldest_first,
                environment.discord_application_id.as_str(),
            );
            store_record(invocation, topic, turns)
        },
        (Pending::Store, Event::Stored) => Step::Reply(Reply::interaction(5, None)),
        _ => Step::Fail(HandlerError::UnexpectedEvent),
    }
}

/// The call to Discord that carries out `action`; the store's write is no
/// such call.
pub open spec fn call_for(environment: EnvironmentView, action: ActionView) -> Option<
    OutboundRequestView,
> {
    match action {
        ActionView::GetChannel { channel_id } => Some(
            OutboundRequestView::discord(
                HttpMethod::Get,
                channel_item_url(channel_id),
                environment.discord_bot_token,
                PayloadView::Empty,
            ),
        ),
        ActionView::GetMessage { channel_id, message_id } => Some(
            OutboundRequestView::discord(
                HttpMethod::Get,
                channel_message_item_url(channel_id, message_id),
                environment.discord_bot_token,
                PayloadView::Empty,
            ),
        ),
        ActionView::GetMessages { channel_id, limit } => Some(
            OutboundRequestView {
                query: messages_query(None, Some(limit)),
                ..OutboundRequestView::discord(
                    HttpMethod::Get,
                    channel_messages_url(channel_id),
                    environment.discord_bot_token,
                    PayloadView::Empty,
                )
            },
        ),
        ActionView::PutCommand(_) => None,
    }
}

/// The call to Discord that carries out `action`.
pub fn request_for(environment: &Environment, action: &Action) -> (call: Option<OutboundRequest>)
    ensures
        call.deep_view() == call_for(environment@, action@),
{
    match action {
        Action::GetChannel { channel_id } => Some(get_get_channel(environment, channel_id.as_str())),
        Action::GetMessage { channel_id, message_id } => Some(
            get_get_message(environment, channel_id.as_str(), message_id.as_str()),
        ),
        Action::GetMessages { channel_id, limit } => Some(
            get_get_messages(environment, channel_id.as_str(), None, Some(*limit)),
        ),
        Action::PutCommand(_) => None,
    }
}

/// What the JSON document `json` says in answer to the question that
/// `pending` awaits: the channel, the message or the messages asked for,
/// and a failure where the document is none of that or no question to
/// Discord is open.
pub open spec fn answer_of(pending: PendingView, json: Option<crate::json::JsonModel>) -> EventView {
    match (pending, json) {
        (PendingView::Store, _) => EventView::Failed("no answer is awaited"@),
        (_, None) => EventView::Failed("the answer is not JSON"@),
        (PendingView::Channel(_), Some(json)) | (PendingView::Parent { .. }, Some(json)) => {
            match ChannelView::of_json(json) {
                Some(channel) => EventView::Channel(channel),
                None => EventView::Failed("the answer is not a channel"@),
            }
        },
        (PendingView::LastMessage { .. }, Some(json)) => match MessageView::of_json(json) {
            Some(message) => EventView::Message(message),
            None => EventView::Failed("the answer is not a message"@),
        },
        (PendingView::History { .. }, Some(json)) => match MessageView::list_of_json(json) {
            Some(messages) => EventView::Messages(messages),
            None => EventView::Failed("the answer is not a list of messages"@),
        },
    }
}

/// Reads Discord's answer to the question that `pending` awaits from the
/// body of its response.
pub fn event_for(pending: &Pending, body: &[u8]) -> (event: Event)
    ensures
        event@ == answer_of(pending@, parsed_json(body@)),
{
    match pending {
        Pending::Store => { return Event::Failed("no answer is awaited".to_owned()); },
        _ => {},
    }
    let json = match parse_json(body) {
        Some(json) => json,
        None => { return Event::Failed("the answer is not JSON".to_owned()); },
    };
    match pending {
        Pending::Channel(_) | Pending::Parent { .. } => match Channel::from_json(&json) {
            Some(channel) => Event::Channel(channel),
            None => Event::Failed("the answer is not a channel".to_owned()),
        },
        Pending::LastMessage { .. } => match Message::from_json(&json) {
            Some(message) => Event::Message(message),
            None => Event::Failed("the answer is not a message".to_owned()),
        },
        Pending::History { .. } => match Message::list_from_json(&json) {
            Some(messages) => Event::Messages(messages),
            None => Event::Failed("the answer is not a list of messages".to_owned()),
        },
        Pending::Store => Event::Failed("no answer is awaited".to_owned()),
    }
}

} // verus!
