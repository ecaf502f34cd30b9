//! A call to a REST service, described but not made.

use vstd::prelude::*;
use crate::models::application_command::{ApplicationCommand, ApplicationCommandView};
use crate::models::chatgpt::chat_completion::{ChatCompletionRequest, ChatCompletionRequestView};
use crate::models::discord::webhook_request::{WebhookRequest, WebhookRequestView};

verus! {

/// The method of a call.
#[derive(Debug, Clone, Copy, PartialEq, Eq)]
pub enum HttpMethod {
    Get,
    Post,
    Patch,
    Delete,
}

/// The value of a query parameter.
#[derive(Debug, Clone, PartialEq)]
pub enum QueryValue {
    Text(String),
    Number(u32),
}

/// Mathematical model of a [`QueryValue`].
pub ghost enum QueryValueView {
    Text(Seq<char>),
    Number(u32),
}

impl View for QueryValue {
    type V = QueryValueView;

    open spec fn view(&self) -> QueryValueView {
        match self {
            QueryValue::Text(text) => QueryValueView::Text(text@),
            QueryValue::Number(number) => QueryValueView::Number(*number),
        }
    }
}

impl DeepView for QueryValue {
    type V = QueryValueView;

    open spec fn deep_view(&self) -> QueryValueView {
        self@
    }
}

/// What a call sends as its JSON body.
#[derive(Debug, Clone, PartialEq)]
pub enum Payload {
    /// The call has no body.
    Empty,
    /// A command to register.
    Command(ApplicationCommand),
    /// A prompt.
    Completion(ChatCompletionRequest),
    /// The text of a message.
    Message(WebhookRequest),
    /// The description of a thread to start: its name, Discord's channel
    /// type number, and the minutes without activity after which it is
    /// archived.
    Thread { name: String, type_: u32, auto_archive_duration: u32 },
}

/// Mathematical model of a [`Payload`].
pub ghost enum PayloadView {
    Empty,
    Command(ApplicationCommandView),
    Completion(ChatCompletionRequestView),
    Message(WebhookRequestView),
    Thread { name: Seq<char>, type_: u32, auto_archive_duration: u32 },
}

impl View for Payload {
    type V = PayloadView;

    open spec fn view(&self) -> PayloadView {
        match self {
            Payload::Empty => PayloadView::Empty,
            Payload::Command(command) => PayloadView::Command(command@),
            Payload::Completion(request) => PayloadView::Completion(request@),
            Payload::Message(message) => PayloadView::Message(message@),
            Payload::Thread { name, type_, auto_archive_duration } => PayloadView::Thread {
                name: name@,
                type_: *type_,
                auto_archive_duration: *auto_archive_duration,
            },
        }
    }
}

/// A call to a REST service: where it goes, who makes it, and what it
/// carries.
#[derive(Debug, Clone, PartialEq)]
pub struct OutboundRequest {
    pub method: HttpMethod,
    pub url: String,
    /// The value of the `Authorization` header.
    pub authorization: String,
    /// The query parameters, in the order in which they are written.
    pub query: Vec<(String, QueryValue)>,
    pub payload: Payload,
}

/// Mathematical model of an [`OutboundRequest`].
pub ghost struct OutboundRequestView {
    pub method: HttpMethod,
    pub url: Seq<char>,
    pub authorization: Seq<char>,
    pub query: Seq<(Seq<char>, QueryValueView)>,
    pub payload: PayloadView,
}

impl OutboundRequestView {
    /// A call to Discord in the bot's name, without query parameters.
    pub open spec fn discord(
        method: HttpMethod,
        url: Seq<char>,
        bot_token: Seq<char>,
        payload: PayloadView,
    ) -> OutboundRequestView {
        OutboundRequestView {
            method,
            url,
            authorization: "Bot "@ + bot_token,
            query: Seq::empty(),
            payload,
        }
    }
}

impl View for OutboundRequest {
    type V = OutboundRequestView;

    open spec fn view(&self) -> OutboundRequestView {
        OutboundRequestView {
            method: self.method,
            url: self.url@,
            authorization: self.authorization@,
            query: self.query.deep_view(),
            payload: self.payload@,
        }
    }
}

impl DeepView for OutboundRequest {
    type V = OutboundRequestView;

    open spec fn deep_view(&self) -> OutboundRequestView {
        self@
    }
}

} // verus!
