//! The worker's side of a deferred command: asking for the completion and
//! showing the answer as it grows.
//!
//! As in the handler, the functions here decide and never talk to anyone:
//! they say which call is to be made next.

use vstd::prelude::*;
use vstd::string::StringExecFns;
use vstd::utf8::valid_utf8;
use crate::env::{Environment, EnvironmentView};
use crate::endpoint::{followup_item_url, followup_url};
use crate::models::chatgpt::chat_completion::{ChatCompletionRequest, ChatCompletionRequestView};
use crate::models::discord::webhook_request::{WebhookRequest, WebhookRequestView};
use crate::models::dynamo::discord_command::{
    CommandType,
    CommandTypeView,
    DiscordCommand,
    DiscordCommandView,
};
use crate::services::chatgpt_service::{
    chat_completions_call,
    joined,
    lemma_stream_reconstruction,
    pieces_of,
    post_chat_completions,
    text_of,
    CompletionStream,
    CompletionStreamView,
    Run,
    StreamError,
};
use crate::services::discord_service::{edit_followup_message, post_followup_message};
use crate::services::request::{HttpMethod, OutboundRequest, OutboundRequestView, PayloadView};
use crate::text::same_text;

verus! {

/// Text is shown once more pieces of the answer than this are pending.
pub const BATCH: usize = 10;

/// Whether a change with this name in the store's feed is a command to
/// work on: insertions are, and so are modifications, by which a command
/// is replayed.
pub open spec fn is_work(event_name: Seq<char>) -> bool {
    event_name == "INSERT"@ || event_name == "MODIFY"@
}

/// Whether a change with this name in the store's feed is a command to
/// work on.
pub fn should_process(event_name: &str) -> (work: bool)
    ensures
        work == is_work(event_name@),
{
    same_text(event_name, "INSERT") || same_text(event_name, "MODIFY")
}

/// Whether a status code reports success.
pub open spec fn is_success(status: u16) -> bool {
    200 <= status < 300
}

/// Whether a status code reports success.
pub fn status_is_success(status: u16) -> (success: bool)
    ensures
        success == is_success(status),
{
    200 <= status && status < 300
}

/// Mathematical model of a [`Relay`].
pub ghost struct RelayView {
    /// The token under which follow-up messages are sent.
    pub token: Seq<char>,
    /// The reader of the streamed answer.
    pub stream: CompletionStreamView,
    /// All of the answer that has been shown so far.
    pub buffer: Seq<char>,
    /// The follow-up message that shows it, once there is one.
    pub message_id: Option<Seq<char>>,
}

impl RelayView {
    /// The relay of a command before anything arrived.
    pub open spec fn start(token: Seq<char>) -> RelayView {
        RelayView {
            token,
            stream: CompletionStreamView { pending: Seq::empty(), count: BATCH, done: false },
            buffer: Seq::empty(),
            message_id: None,
        }
    }

    /// The call that shows all of the answer so far: the first makes the
    /// follow-up message, every later one replaces its whole text.
    pub open spec fn delivery(self, environment: EnvironmentView) -> OutboundRequestView {
        let payload = PayloadView::Message(WebhookRequestView { content: self.buffer });
        match self.message_id {
            Some(message_id) => OutboundRequestView::discord(
                HttpMethod::Patch,
                followup_item_url(environment.discord_application_id, self.token, message_id),
                environment.discord_bot_token,
                payload,
            ),
            None => OutboundRequestView::discord(
                HttpMethod::Post,
                followup_url(environment.discord_application_id, self.token),
                environment.discord_bot_token,
                payload,
            ),
        }
    }

    /// The relay after its reader has moved to `stream` and handed out
    /// `text`: the text is put behind what was shown.
    pub open spec fn shown(self, stream: CompletionStreamView, text: Option<Seq<char>>) -> RelayView {
        RelayView {
            stream,
            buffer: match text {
                Some(text) => self.buffer + text,
                None => self.buffer,
            },
            ..self
        }
    }

    /// The relay after one more raw input of the streamed answer.
    pub open spec fn input(self, input: Seq<u8>) -> RelayView {
        self.shown(self.stream.push(input).0, self.stream.push(input).1)
    }

    /// The relay after `inputs`, one after the other.
    pub open spec fn inputs(self, inputs: Seq<Seq<u8>>) -> RelayView
        decreases inputs.len(),
    {
        if inputs.len() == 0 {
            self
        } else {
            self.inputs(inputs.drop_last()).input(inputs.last())
        }
    }

    /// The relay after the end of the streamed answer.
    pub open spec fn end(self) -> RelayView {
        self.shown(self.stream.finish().0, self.stream.finish().1)
    }
}

/// Shows the answer to one command as it arrives.
#[derive(Debug)]
pub struct Relay {
    token: String,
    stream: CompletionStream,
    buffer: String,
    message_id: Option<String>,
}

impl View for Relay {
    type V = RelayView;

    closed spec fn view(&self) -> RelayView {
        RelayView {
            token: self.token@,
            stream: self.stream@,
            buffer: self.buffer@,
            message_id: self.message_id.deep_view(),
        }
    }
}

/// The prompt that a stored command asks to be answered.
pub open spec fn prompt_of(command: DiscordCommandView) -> ChatCompletionRequestView {
    match command.command_type {
        CommandTypeView::Chat(chat) => ChatCompletionRequestView::of_command(chat),
    }
}

/// The token under which a stored command is answered.
pub open spec fn token_of(command: DiscordCommandView) -> Seq<char> {
    match command.command_type {
        CommandTypeView::Chat(chat) => chat.interaction_token,
    }
}

/// The relay does not lose or repeat a word: while no input fails, its
/// reader goes through the states of the whole-stream reading, and what it
/// has shown is the texts handed out so far, one behind the other.
pub proof fn lemma_relay_follows_run(token: Seq<char>, inputs: Seq<Seq<u8>>)
    requires
        !Run::start(BATCH).inputs(inputs).failed,
    ensures
        RelayView::start(token).inputs(inputs).stream == Run::start(BATCH).inputs(inputs).stream,
        RelayView::start(token).inputs(inputs).buffer == joined(
            Run::start(BATCH).inputs(inputs).emitted,
        ),
        RelayView::start(token).inputs(inputs).message_id is None,
        RelayView::start(token).inputs(inputs).token == token,
    decreases inputs.len(),
{
    if inputs.len() > 0 {
        lemma_relay_follows_run(token, inputs.drop_last());
        let before = Run::start(BATCH).inputs(inputs.drop_last());
        let after = before.input(inputs.last());
        match before.stream.push(inputs.last()).1 {
            Some(text) => {
                assert(after.emitted.drop_last() =~= before.emitted);
            },
            None => {},
        }
    }
}

/// The answer is shown whole: when no input failed, the text of the last
/// message shown, at the end of the stream, is the words of every piece
/// that arrived before the closing frame, in the order of arrival.
pub proof fn lemma_relay_shows_answer(token: Seq<char>, inputs: Seq<Seq<u8>>)
    requires
        !Run::start(BATCH).inputs(inputs).failed,
    ensures
        RelayView::start(token).inputs(inputs).end().buffer == text_of(pieces_of(inputs).chunks),
{
    lemma_relay_follows_run(token, inputs);
    lemma_stream_reconstruction(inputs, BATCH);
    let run = Run::start(BATCH).inputs(inputs);
    match run.stream.finish().1 {
        Some(text) => {
            assert(run.end().emitted.drop_last() =~= run.emitted);
        },
        None => {},
    }
}

impl Relay {
    /// Takes up a stored command: the relay that will show the answer, and
    /// the call that asks for it.
    pub fn begin(environment: &Environment, command: DiscordCommand) -> (start: (
        Relay,
        OutboundRequest,
    ))
        ensures
            start.0@ == RelayView::start(token_of(command@)),
            start.1@ == chat_completions_call(environment@, prompt_of(command@)),
    {
        match command.command_type {
            CommandType::Chat(chat) => {
                let relay = Relay {
                    token: chat.interaction_token.clone(),
                    stream: CompletionStream::new(BATCH),
                    buffer: String::new(),
                    message_id: None,
                };
                let prompt = ChatCompletionRequest::from(chat);
                (relay, post_chat_completions(environment, prompt))
            },
        }
    }

    /// The call that tells the user why there will be no answer: a
    /// follow-up message with the service's error text.
    pub fn report(&self, environment: &Environment, error_text: String) -> (call: OutboundRequest)
        ensures
            call@ == OutboundRequestView::discord(
                HttpMethod::Post,
                followup_url(environment@.discord_application_id, self@.token),
                environment@.discord_bot_token,
                PayloadView::Message(WebhookRequestView { content: error_text@ }),
            ),
    {
        post_followup_message(
            environment,
            self.token.as_str(),
            WebhookRequest { content: error_text },
        )
    }

    /// Decides what the status of the completion call leads to. After a
    /// success the answer is read, and nothing is called yet. After any
    /// other status the answer is not read: the one call to make is the
    /// follow-up message that shows `error_text`, the body of the
    /// response.
    pub fn on_status(&self, environment: &Environment, status: u16, error_text: String) -> (call:
        Option<OutboundRequest>)
        ensures
            call.deep_view() == if is_success(status) {
                None
            } else {
                Some(
                    OutboundRequestView::discord(
                        HttpMethod::Post,
                        followup_url(environment@.discord_application_id, self@.token),
                        environment@.discord_bot_token,
                        PayloadView::Message(WebhookRequestView { content: error_text@ }),
                    ),
                )
            },
    {
        if status_is_success(status) {
            None
        } else {
            Some(self.report(environment, error_text))
        }
    }

    /// The call that shows all of the answer so far.
    fn deliver(&self, environment: &Environment) -> (call: OutboundRequest)
        ensures
            call@ == self@.delivery(environment@),
    {
        let payload = WebhookRequest { content: self.buffer.clone() };
        match &self.message_id {
            Some(message_id) => edit_followup_message(
                environment,
                message_id.as_str(),
                self.token.as_str(),
                payload,
            ),
            None => post_followup_message(environment, self.token.as_str(), payload),
        }
    }

    /// Takes in one raw input of the streamed answer. Where that hands out
    /// text, the text is put behind what was shown, and the call that
    /// shows all of it is returned. Fails, and changes nothing, on an
    /// input that is not UTF-8 while the stream is open.
    pub fn on_input(&mut self, environment: &Environment, input: &[u8]) -> (call: Result<
        Option<OutboundRequest>,
        StreamError,
    >)
        ensures
            match call {
                Ok(call) => {
                    &&& old(self)@.stream.done || valid_utf8(input@)
                    &&& final(self)@ == old(self)@.input(input@)
                    &&& call.deep_view() == if old(self)@.stream.push(input@).1 is Some {
                        Some(final(self)@.delivery(environment@))
                    } else {
                        None
                    }
                },
                Err(error) => {
                    &&& !old(self)@.stream.done
                    &&& !valid_utf8(input@)
                    &&& error == StreamError::InvalidUtf8
                    &&& final(self)@ == old(self)@
                },
            },
    {
        match self.stream.push(input) {
            Ok(Some(text)) => {
                self.buffer.append(text.as_str());
                Ok(Some(self.deliver(environment)))
            },
            Ok(None) => Ok(None),
            Err(error) => Err(error),
        }
    }

    /// Ends the streamed answer: where text is still pending, it is put
    /// behind what was shown, and the call that shows all of it is
    /// returned.
    pub fn on_end(&mut self, environment: &Environment) -> (call: Option<OutboundRequest>)
        ensures
            final(self)@ == old(self)@.end(),
            call.deep_view() == if old(self)@.stream.finish().1 is Some {
                Some(final(self)@.delivery(environment@))
            } else {
                None
            },
    {
        match self.stream.finish() {
            Some(text) => {
                self.buffer.append(text.as_str());
                Some(self.deliver(environment))
            },
            None => None,
        }
    }

    /// Notes the follow-up message that Discord made: from now on its text
    /// is replaced.
    pub fn on_created(&mut self, message_id: String)
        ensures
            final(self)@ == (RelayView { message_id: Some(message_id@), ..old(self)@ }),
    {
        self.message_id = Some(message_id);
    }

    /// Whether no follow-up message has been noted yet, so that the next
    /// call makes one.
    pub fn awaits_message(&self) -> (none: bool)
        ensures
            none == self@.message_id is None,
    {
        self.message_id.is_none()
    }

    /// All of the answer that has been shown so far.
    pub fn shown_text(&self) -> (text: &str)
        ensures
            text@ == self@.buffer,
    {
        self.buffer.as_str()
    }

    /// Whether the end of the streamed answer has been seen.
    pub fn is_done(&self) -> (done: bool)
        ensures
            done == self@.stream.done,
    {
        self.stream.is_done()
    }
}

/// The showing of a streamed answer: the relay, the calls made so far, and
/// whether reading failed.
pub ghost struct Showing {
    pub relay: RelayView,
    pub calls: Seq<OutboundRequestView>,
    pub failed: bool,
}

impl Showing {
    /// Before the first input.
    pub open spec fn start(relay: RelayView) -> Showing {
        Showing { relay, calls: Seq::empty(), failed: false }
    }

    /// After the relay has moved to `next`. Where it handed out text, the
    /// call that shows all of the answer is made, and where that call
    /// made the follow-up message, the message is noted under
    /// `message_id`.
    pub open spec fn shown(
        self,
        environment: EnvironmentView,
        next: RelayView,
        emitted: bool,
        message_id: Seq<char>,
    ) -> Showing {
        if emitted {
            Showing {
                relay: RelayView {
                    message_id: if next.message_id is None {
                        Some(message_id)
                    } else {
                        next.message_id
                    },
                    ..next
                },
                calls: self.calls.push(next.delivery(environment)),
                ..self
            }
        } else {
            Showing { relay: next, ..self }
        }
    }

    /// After one more raw input. A failed showing stays as it is; an input
    /// that is not UTF-8 fails a showing whose stream is still open.
    pub open spec fn input(
        self,
        environment: EnvironmentView,
        input: Seq<u8>,
        message_id: Seq<char>,
    ) -> Showing {
        if self.failed {
            self
        } else if !self.relay.stream.done && !valid_utf8(input) {
            Showing { failed: true, ..self }
        } else {
            self.shown(
                environment,
                self.relay.input(input),
                self.relay.stream.push(input).1 is Some,
                message_id,
            )
        }
    }

    /// After `inputs`, one after the other.
    pub open spec fn inputs(
        self,
        environment: EnvironmentView,
        inputs: Seq<Seq<u8>>,
        message_id: Seq<char>,
    ) -> Showing
        decreases inputs.len(),
    {
        if inputs.len() == 0 {
            self
        } else {
            self.inputs(environment, inputs.drop_last(), message_id).input(
                environment,
                inputs.last(),
                message_id,
            )
        }
    }

    /// After the end of the input: a showing that did not fail shows what
    /// is still pending.
    pub open spec fn end(self, environment: EnvironmentView, message_id: Seq<char>) -> Showing {
        if self.failed {
            self
        } else {
            self.shown(
                environment,
                self.relay.end(),
                self.relay.stream.finish().1 is Some,
                message_id,
            )
        }
    }

    /// The showing of the whole streamed answer `inputs` to the command
    /// answered under `token`.
    pub open spec fn of_stream(
        environment: EnvironmentView,
        token: Seq<char>,
        inputs: Seq<Seq<u8>>,
        message_id: Seq<char>,
    ) -> Showing {
        Showing::start(RelayView::start(token)).inputs(environment, inputs, message_id).end(
            environment,
            message_id,
        )
    }
}

/// A failed showing stays failed, whatever else arrives.
pub proof fn lemma_failed_showing_is_final(
    showing: Showing,
    environment: EnvironmentView,
    inputs: Seq<Seq<u8>>,
    message_id: Seq<char>,
)
    requires
        showing.failed,
    ensures
        showing.inputs(environment, inputs, message_id) == showing,
    decreases inputs.len(),
{
    if inputs.len() > 0 {
        lemma_failed_showing_is_final(showing, environment, inputs.drop_last(), message_id);
    }
}

/// Showing one run of inputs and then another is showing both.
pub proof fn lemma_showing_split(
    showing: Showing,
    environment: EnvironmentView,
    first: Seq<Seq<u8>>,
    second: Seq<Seq<u8>>,
    message_id: Seq<char>,
)
    ensures
        showing.inputs(environment, first + second, message_id) == showing.inputs(
            environment,
            first,
            message_id,
        ).inputs(environment, second, message_id),
    decreases second.len(),
{
    if second.len() == 0 {
        assert(first + second =~= first);
    } else {
        lemma_showing_split(showing, environment, first, second.drop_last(), message_id);
        assert((first + second).drop_last() =~= first + second.drop_last());
        assert((first + second).last() == second.last());
    }
}

/// Whether `calls` are the calls of one showing: the first makes the
/// follow-up message under `token`, and every later one replaces the text
/// of the message `message_id`.
pub open spec fn one_message(
    environment: EnvironmentView,
    token: Seq<char>,
    message_id: Seq<char>,
    calls: Seq<OutboundRequestView>,
) -> bool {
    forall|i: int|
        0 <= i < calls.len() ==> {
            let call = #[trigger] calls[i];
            &&& call.payload is Message
            &&& call.authorization == "Bot "@ + environment.discord_bot_token
            &&& call.query.len() == 0
            &&& if i == 0 {
                call.method == HttpMethod::Post && call.url == followup_url(
                    environment.discord_application_id,
                    token,
                )
            } else {
                call.method == HttpMethod::Patch && call.url == followup_item_url(
                    environment.discord_application_id,
                    token,
                    message_id,
                )
            }
        }
}

/// While a streamed answer is shown and no input fails, the showing goes
/// the way of the relay and of the whole-stream reading: one call for
/// every text handed out, the first making the follow-up message and the
/// later ones replacing its text, each carrying all of the answer that
/// has been handed out up to then.
pub proof fn lemma_showing_follows_relay(
    environment: EnvironmentView,
    token: Seq<char>,
    inputs: Seq<Seq<u8>>,
    message_id: Seq<char>,
)
    requires
        !Run::start(BATCH).inputs(inputs).failed,
    ensures
        ({
            let showing = Showing::start(RelayView::start(token)).inputs(
                environment,
                inputs,
                message_id,
            );
            let relay = RelayView::start(token).inputs(inputs);
            &&& !showing.failed
            &&& showing.relay == RelayView { message_id: showing.relay.message_id, ..relay }
            &&& showing.calls.len() == Run::start(BATCH).inputs(inputs).emitted.len()
            &&& showing.relay.message_id == if showing.calls.len() == 0 {
                None
            } else {
                Some(message_id)
            }
            &&& one_message(environment, token, message_id, showing.calls)
            &&& showing.calls.len() > 0 ==> showing.calls.last().payload == PayloadView::Message(
                WebhookRequestView { content: relay.buffer },
            )
        }),
    decreases inputs.len(),
{
    lemma_relay_follows_run(token, inputs);
    if inputs.len() > 0 {
        lemma_showing_follows_relay(environment, token, inputs.drop_last(), message_id);
        lemma_relay_follows_run(token, inputs.drop_last());
    }
}

/// The answer is shown whole and in one message: when no input failed,
/// the calls made for a streamed answer are one that makes the follow-up
/// message and then only calls that replace its text, and the last call
/// carries the words of every piece that arrived before the closing
/// frame, in the order of arrival. Where nothing is called, no piece
/// carried a word.
pub proof fn lemma_last_call_carries_answer(
    environment: EnvironmentView,
    token: Seq<char>,
    inputs: Seq<Seq<u8>>,
    message_id: Seq<char>,
)
    requires
        !Run::start(BATCH).inputs(inputs).failed,
    ensures
        ({
            let showing = Showing::of_stream(environment, token, inputs, message_id);
            let answer = text_of(pieces_of(inputs).chunks);
            &&& !showing.failed
            &&& showing.relay.buffer == answer
            &&& one_message(environment, token, message_id, showing.calls)
            &&& showing.calls.len() > 0 ==> showing.calls.last().payload == PayloadView::Message(
                WebhookRequestView { content: answer },
            )
            &&& showing.calls.len() == 0 ==> answer.len() == 0
        }),
{
    lemma_showing_follows_relay(environment, token, inputs, message_id);
    lemma_relay_follows_run(token, inputs);
    lemma_relay_shows_answer(token, inputs);
}

/// What the worker does for one change in the store's feed, given how the
/// services answer: the calls it makes, in order, and whether the reading
/// of the answer failed. A change that is no work, or holds no command,
/// leads to no call. Else the completion is asked for. After a status that
/// is no success the one further call shows the error text; after a
/// success the streamed answer `inputs` is shown, in the message that
/// Discord makes under `message_id`.
pub open spec fn worked(
    environment: EnvironmentView,
    event_name: Seq<char>,
    command: Option<DiscordCommandView>,
    status: u16,
    error_text: Seq<char>,
    inputs: Seq<Seq<u8>>,
    message_id: Seq<char>,
) -> Showing {
    if command is None || !is_work(event_name) {
        Showing::start(RelayView::start(Seq::empty()))
    } else {
        let command = command->Some_0;
        let asked = chat_completions_call(environment, prompt_of(command));
        if !is_success(status) {
            Showing {
                relay: RelayView::start(token_of(command)),
                calls: seq![
                    asked,
                    OutboundRequestView::discord(
                        HttpMethod::Post,
                        followup_url(environment.discord_application_id, token_of(command)),
                        environment.discord_bot_token,
                        PayloadView::Message(WebhookRequestView { content: error_text }),
                    ),
                ],
                failed: false,
            }
        } else {
            let showing = Showing::of_stream(environment, token_of(command), inputs, message_id);
            Showing { calls: seq![asked] + showing.calls, ..showing }
        }
    }
}

/// What the worker has done for one change in the store's feed.
#[derive(Debug, PartialEq)]
pub struct Handled {
    /// The calls made, in order.
    pub calls: Vec<OutboundRequest>,
    /// Why the reading of the answer stopped early, if it did.
    pub error: Option<StreamError>,
}

/// Works on one change in the store's feed, given how the services answer
/// on the way: `status` and, where that is no success, `error_text` from
/// the chat-completion service; then the raw inputs of its streamed
/// answer; and `message_id`, under which Discord makes the follow-up
/// message. Returns the calls to make, in order. Reading stops at the
/// first input that is not UTF-8: the calls made before it are returned
/// with the error.
#[verifier::loop_isolation(false)]
pub fn function_handler(
    environment: &Environment,
    event_name: &str,
    command: Option<DiscordCommand>,
    status: u16,
    error_text: String,
    inputs: &Vec<Vec<u8>>,
    message_id: &str,
) -> (handled: Handled)
    ensures
        handled.calls.deep_view() == worked(
            environment@,
            event_name@,
            command.deep_view(),
            status,
            error_text@,
            inputs.deep_view(),
            message_id@,
        ).calls,
        handled.error is Some == worked(
            environment@,
            event_name@,
            command.deep_view(),
            status,
            error_text@,
            inputs.deep_view(),
            message_id@,
        ).failed,
        handled.error is Some ==> handled.error == Some(StreamError::InvalidUtf8),
{
    let mut calls: Vec<OutboundRequest> = Vec::new();
    assert(calls.deep_view() =~= Seq::empty());
    let command = match command {
        Some(command) => command,
        None => { return Handled { calls, error: None }; },
    };
    if !should_process(event_name) {
        return Handled { calls, error: None };
    }
    let ghost token = token_of(command@);
    let (mut relay, asked) = Relay::begin(environment, command);
    let ghost asked_view = asked@;
    calls.push(asked);
    match relay.on_status(environment, status, error_text) {
        Some(call) => {
            let ghost report = call@;
            calls.push(call);
            assert(calls.deep_view() =~= seq![asked_view, report]);
            return Handled { calls, error: None };
        },
        None => {},
    }
    let ghost all = inputs.deep_view();
    let ghost start = Showing::start(RelayView::start(token));
    let mut i: usize = 0;
    assert(all.take(0) =~= Seq::empty());
    assert(calls.deep_view() =~= seq![asked_view] + Seq::empty());
    while i < inputs.len()
        invariant
            i <= inputs.len(),
            all == inputs.deep_view(),
            start == Showing::start(RelayView::start(token)),
            !start.inputs(environment@, all.take(i as int), message_id@).failed,
            start.inputs(environment@, all.take(i as int), message_id@).relay == relay@,
            calls.deep_view() == seq![asked_view] + start.inputs(
                environment@,
                all.take(i as int),
                message_id@,
            ).calls,
        decreases inputs.len() - i,
    {
        let ghost before = start.inputs(environment@, all.take(i as int), message_id@);
        proof {
            assert(all.take(i + 1).drop_last() =~= all.take(i as int));
            assert(all.take(i + 1).last() == all[i as int]);
            assert(inputs[i as int].deep_view() =~= inputs[i as int]@);
        }
        match relay.on_input(environment, inputs[i].as_slice()) {
            Ok(Some(call)) => {
                let ghost kept = calls.deep_view();
                let ghost made = call@;
                calls.push(call);
                if relay.awaits_message() {
                    relay.on_created(message_id.to_owned());
                }
                assert(calls.deep_view() =~= kept.push(made));
                assert(kept.push(made) =~= seq![asked_view] + before.calls.push(made));
            },
            Ok(None) => {},
            Err(error) => {
                proof {
                    let failed = before.input(environment@, all[i as int], message_id@);
                    assert(failed == start.inputs(environment@, all.take(i + 1), message_id@));
                    assert(all =~= all.take(i + 1) + all.skip(i + 1));
                    lemma_showing_split(
                        start,
                        environment@,
                        all.take(i + 1),
                        all.skip(i + 1),
                        message_id@,
                    );
                    lemma_failed_showing_is_final(
                        failed,
                        environment@,
                        all.skip(i + 1),
                        message_id@,
                    );
                }
                return Handled { calls, error: Some(error) };
            },
        }
        i += 1;
    }
    assert(all.take(i as int) =~= all);
    let ghost before = start.inputs(environment@, all, message_id@);
    match relay.on_end(environment) {
        Some(call) => {
            let ghost kept = calls.deep_view();
            let ghost made = call@;
            calls.push(call);
            if relay.awaits_message() {
                relay.on_created(message_id.to_owned());
            }
            assert(calls.deep_view() =~= kept.push(made));
            assert(kept.push(made) =~= seq![asked_view] + before.calls.push(made));
        },
        None => {},
    }
    Handled { calls, error: None }
}

} // verus!
