//! What goes back to the caller of the webhook.

use vstd::prelude::*;
use crate::models::response::{InteractionMessage, InteractionMessageView, InteractionResponse};

verus! {

/// The content type that a reply declares.
#[derive(Debug, Clone, Copy, PartialEq, Eq)]
pub enum ContentType {
    /// `text/html`
    Html,
    /// `application/json`
    Json,
    /// The reply declares none.
    Unset,
}

/// Mathematical model of an answer to an interaction.
pub ghost struct InteractionResponseView {
    pub type_: u32,
    pub data: Option<InteractionMessageView>,
}

/// The body of a reply.
#[derive(Debug, Clone, PartialEq)]
pub enum ReplyBody {
    /// Plain text.
    Text(String),
    /// An answer to an interaction, to be written as JSON.
    Interaction(InteractionResponse<InteractionMessage>),
}

/// Mathematical model of a [`ReplyBody`].
pub ghost enum ReplyBodyView {
    Text(Seq<char>),
    Interaction(InteractionResponseView),
}

impl View for ReplyBody {
    type V = ReplyBodyView;

    open spec fn view(&self) -> ReplyBodyView {
        match self {
            ReplyBody::Text(text) => ReplyBodyView::Text(text@),
            ReplyBody::Interaction(response) => ReplyBodyView::Interaction(
                InteractionResponseView { type_: response.type_, data: response.data.deep_view() },
            ),
        }
    }
}

/// An HTTP reply.
#[derive(Debug, Clone, PartialEq)]
pub struct Reply {
    pub status: u16,
    pub content_type: ContentType,
    pub body: ReplyBody,
}

/// Mathematical model of a [`Reply`].
pub ghost struct ReplyView {
    pub status: u16,
    pub content_type: ContentType,
    pub body: ReplyBodyView,
}

impl ReplyView {
    /// A reply of plain text.
    pub open spec fn text(status: u16, content_type: ContentType, text: Seq<char>) -> ReplyView {
        ReplyView { status, content_type, body: ReplyBodyView::Text(text) }
    }

    /// The reply that carries an answer to an interaction: status 200,
    /// JSON.
    pub open spec fn interaction(type_: u32, data: Option<InteractionMessageView>) -> ReplyView {
        ReplyView {
            status: 200,
            content_type: ContentType::Json,
            body: ReplyBodyView::Interaction(InteractionResponseView { type_, data }),
        }
    }

    /// The answer to a ping.
    pub open spec fn pong() -> ReplyView {
        ReplyView::interaction(1, None)
    }

    /// The promise of a follow-up message.
    pub open spec fn deferred() -> ReplyView {
        ReplyView::interaction(5, None)
    }

    /// The message shown at once to someone who uses the thread command
    /// outside a thread.
    pub open spec fn outside_thread() -> ReplyView {
        ReplyView::interaction(
            4,
            Some(
                InteractionMessageView {
                    tts: None,
                    content: Some("Cannot use this command outside threads"@),
                },
            ),
        )
    }

    /// Turned away: the signature did not pass.
    pub open spec fn unauthorized() -> ReplyView {
        ReplyView::text(401, ContentType::Html, "invalid request signature"@)
    }

    /// The body is not an interaction.
    pub open spec fn malformed() -> ReplyView {
        ReplyView::text(400, ContentType::Html, "invalid request payload"@)
    }

    /// The command is none of the bot's.
    pub open spec fn unsupported_command() -> ReplyView {
        ReplyView::text(400, ContentType::Json, "Unsupported commands"@)
    }

    /// An interaction of a type the bot does not know: let through.
    pub open spec fn unsupported_type() -> ReplyView {
        ReplyView::text(200, ContentType::Unset, "unsupported type"@)
    }

    /// The greeting at the root.
    pub open spec fn greeting() -> ReplyView {
        ReplyView::text(200, ContentType::Unset, "Hello world!"@)
    }

    /// No such route.
    pub open spec fn not_found() -> ReplyView {
        ReplyView::text(404, ContentType::Html, "Not found"@)
    }

    /// The number of the interaction answer that the reply carries, if it
    /// carries one.
    pub open spec fn interaction_type(self) -> Option<u32> {
        match self.body {
            ReplyBodyView::Interaction(response) => Some(response.type_),
            ReplyBodyView::Text(_) => None,
        }
    }
}

impl View for Reply {
    type V = ReplyView;

    open spec fn view(&self) -> ReplyView {
        ReplyView { status: self.status, content_type: self.content_type, body: self.body@ }
    }
}

impl DeepView for Reply {
    type V = ReplyView;

    open spec fn deep_view(&self) -> ReplyView {
        self@
    }
}

impl Reply {
    /// A reply of plain text.
    pub fn text(status: u16, content_type: ContentType, text: &str) -> (reply: Reply)
        ensures
            reply@ == ReplyView::text(status, content_type, text@),
    {
        Reply { status, content_type, body: ReplyBody::Text(text.to_owned()) }
    }

    /// The reply that carries an answer to an interaction.
    pub fn interaction(type_: u32, data: Option<InteractionMessage>) -> (reply: Reply)
        ensures
            reply@ == ReplyView::interaction(type_, data.deep_view()),
    {
        Reply {
            status: 200,
            content_type: ContentType::Json,
            body: ReplyBody::Interaction(InteractionResponse::new(type_, data)),
        }
    }

    /// The number of the interaction answer that the reply carries, if it
    /// carries one.
    pub fn interaction_type(&self) -> (number: Option<u32>)
        ensures
            number == self@.interaction_type(),
    {
        match &self.body {
            ReplyBody::Interaction(response) => Some(response.type_),
            ReplyBody::Text(_) => None,
        }
    }
}

/// The greeting served at the root.
pub fn get_response() -> (reply: Reply)
    ensures
        reply@ == ReplyView::greeting(),
{
    Reply::text(200, ContentType::Unset, "Hello world!")
}

} // verus!
