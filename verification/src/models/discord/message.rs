//! Channel messages.

use vstd::prelude::*;
use crate::json::{decode_each, Json, JsonModel};
use crate::models::user::{DiscordUser, DiscordUserView};
use crate::text::copy_optional_text;

verus! {

/// The message that another message replies to, one level deep.
#[derive(Debug, Clone, PartialEq)]
pub struct ReferencedMessage {
    pub id: String,
    pub content: Option<String>,
}

/// Mathematical model of a [`ReferencedMessage`].
pub ghost struct ReferencedMessageView {
    pub id: Seq<char>,
    pub content: Option<Seq<char>>,
}

impl ReferencedMessageView {
    /// The message replied to that a JSON object describes: `id` is a
    /// string, and `content` a string that may be missing or `null`.
    pub open spec fn of_json(json: JsonModel) -> Option<ReferencedMessageView> {
        match (json.required_text("id"@), json.optional_text("content"@)) {
            (Some(id), Some(content)) => Some(ReferencedMessageView { id, content }),
            _ => None,
        }
    }
}

impl ReferencedMessage {
    /// Reads the message replied to from a JSON object.
    pub fn from_json(json: &Json) -> (message: Option<ReferencedMessage>)
        ensures
            message.deep_view() == ReferencedMessageView::of_json(json@),
    {
        let id = match json.required_text("id") {
            Some(id) => id,
            None => { return None; },
        };
        let content = match json.optional_text("content") {
            Some(content) => content,
            None => { return None; },
        };
        Some(ReferencedMessage { id, content })
    }
}

impl View for ReferencedMessage {
    type V = ReferencedMessageView;

    open spec fn view(&self) -> ReferencedMessageView {
        ReferencedMessageView { id: self.id@, content: self.content.deep_view() }
    }
}

impl DeepView for ReferencedMessage {
    type V = ReferencedMessageView;

    open spec fn deep_view(&self) -> ReferencedMessageView {
        self@
    }
}

/// A message in a channel or thread.
#[derive(Debug, Clone, PartialEq)]
pub struct Message {
    pub id: String,
    /// Discord's message type number.
    pub type_: u32,
    pub timestamp: String,
    pub content: Option<String>,
    pub author: DiscordUser,
    pub referenced_message: Option<ReferencedMessage>,
}

/// Mathematical model of a [`Message`].
pub ghost struct MessageView {
    pub id: Seq<char>,
    pub type_: u32,
    pub timestamp: Seq<char>,
    pub content: Option<Seq<char>>,
    pub author: DiscordUserView,
    pub referenced_message: Option<ReferencedMessageView>,
}

impl MessageView {
    /// The message replied to in the member `referenced_message` of
    /// `json`, which may be missing or `null`.
    pub open spec fn optional_reference(json: JsonModel) -> Option<Option<ReferencedMessageView>> {
        match json.present("referenced_message"@) {
            Some(value) => match ReferencedMessageView::of_json(value) {
                Some(referenced) => Some(Some(referenced)),
                None => None,
            },
            None => Some(None),
        }
    }

    /// The message that a JSON object describes: `id` and `timestamp` are
    /// strings, `type` is a number and `author` an account; `content` and
    /// `referenced_message` may be missing or `null`. Other members are
    /// ignored.
    pub open spec fn of_json(json: JsonModel) -> Option<MessageView> {
        match (
            json.required_text("id"@),
            json.required_unsigned32("type"@),
            json.required_text("timestamp"@),
            json.optional_text("content"@),
            json.member("author"@),
            MessageView::optional_reference(json),
        ) {
            (
                Some(id),
                Some(type_),
                Some(timestamp),
                Some(content),
                Some(author_json),
                Some(referenced_message),
            ) => match DiscordUserView::of_json(author_json) {
                Some(author) => Some(
                    MessageView { id, type_, timestamp, content, author, referenced_message },
                ),
                None => None,
            },
            _ => None,
        }
    }

    /// The messages that a JSON array describes, in its order.
    pub open spec fn list_of_json(json: JsonModel) -> Option<Seq<MessageView>> {
        match json.items() {
            Some(items) => decode_each(items, |item: JsonModel| MessageView::of_json(item)),
            None => None,
        }
    }

    /// The text a reader is pointed at: that of the message replied to where
    /// there is one, else the message's own.
    pub open spec fn message_content(self) -> Option<Seq<char>> {
        match self.referenced_message {
            Some(referenced) => referenced.content,
            None => self.content,
        }
    }
}

impl View for Message {
    type V = MessageView;

    open spec fn view(&self) -> MessageView {
        MessageView {
            id: self.id@,
            type_: self.type_,
            timestamp: self.timestamp@,
            content: self.content.deep_view(),
            author: self.author@,
            referenced_message: self.referenced_message.deep_view(),
        }
    }
}

impl DeepView for Message {
    type V = MessageView;

    open spec fn deep_view(&self) -> MessageView {
        self@
    }
}

impl Message {
    /// Reads a message from a JSON object.
    pub fn from_json(json: &Json) -> (message: Option<Message>)
        ensures
            message.deep_view() == MessageView::of_json(json@),
    {
        let id = match json.required_text("id") {
            Some(id) => id,
            None => { return None; },
        };
        let type_ = match json.required_unsigned32("type") {
            Some(type_) => type_,
            None => { return None; },
        };
        let timestamp = match json.required_text("timestamp") {
            Some(timestamp) => timestamp,
            None => { return None; },
        };
        let content = match json.optional_text("content") {
            Some(content) => content,
            None => { return None; },
        };
        let author_json = match json.member("author") {
            Some(author_json) => author_json,
            None => { return None; },
        };
        let referenced_message = match json.present("referenced_message") {
            Some(value) => match ReferencedMessage::from_json(value) {
                Some(referenced) => Some(referenced),
                None => { return None; },
            },
            None => None,
        };
        match DiscordUser::from_json(author_json) {
            Some(author) => Some(
                Message { id, type_, timestamp, content, author, referenced_message },
            ),
            None => None,
        }
    }

    /// Reads a list of messages from a JSON array.
    #[verifier::loop_isolation(false)]
    pub fn list_from_json(json: &Json) -> (messages: Option<Vec<Message>>)
        ensures
            messages.deep_view() == MessageView::list_of_json(json@),
    {
        let items = match json.items() {
            Some(items) => items,
            None => { return None; },
        };
        let ghost decode = |item: JsonModel| MessageView::of_json(item);
        let mut messages: Vec<Message> = Vec::new();
        let mut i: usize = 0;
        while i < items.len()
            invariant
                i <= items.len(),
                messages.len() == i,
                forall|k: int|
                    0 <= k < i ==> decode(#[trigger] items.deep_view()[k]) == Some(messages[k]@),
            decreases items.len() - i,
        {
            match Message::from_json(&items[i]) {
                Some(message) => {
                    messages.push(message);
                },
                None => {
                    assert(decode(items.deep_view()[i as int]) is None);
                    return None;
                },
            }
            i += 1;
        }
        proof {
            let decoded = decode_each(items.deep_view(), decode);
            assert(decoded is Some);
            assert(decoded->Some_0 =~= messages.deep_view());
        }
        Some(messages)
    }

    /// The text of the message replied to where there is one, else the
    /// message's own text.
    pub fn get_message_content(&self) -> (content: Option<String>)
        ensures
            content.deep_view() == self@.message_content(),
    {
        match &self.referenced_message {
            Some(referenced) => copy_optional_text(&referenced.content),
            None => copy_optional_text(&self.content),
        }
    }
}

} // verus!
