//! What the bot answers to an interaction.

use vstd::prelude::*;

verus! {

/// The message shown as the answer to an interaction.
#[derive(Debug, Clone, PartialEq)]
pub struct InteractionMessage {
    /// Whether the message is read out.
    pub tts: Option<bool>,
    pub content: Option<String>,
}

/// Mathematical model of an [`InteractionMessage`].
pub ghost struct InteractionMessageView {
    pub tts: Option<bool>,
    pub content: Option<Seq<char>>,
}

impl View for InteractionMessage {
    type V = InteractionMessageView;

    open spec fn view(&self) -> InteractionMessageView {
        InteractionMessageView { tts: self.tts, content: self.content.deep_view() }
    }
}

impl DeepView for InteractionMessage {
    type V = InteractionMessageView;

    open spec fn deep_view(&self) -> InteractionMessageView {
        self@
    }
}

impl InteractionMessage {
    /// A message that says `content`.
    pub fn new(content: &str) -> (message: InteractionMessage)
        ensures
            message@ == (InteractionMessageView { tts: None, content: Some(content@) }),
    {
        InteractionMessage { tts: None, content: Some(content.to_owned()) }
    }
}

/// The answer to an interaction: type 1 answers a ping, type 4 shows
/// `data` at once, type 5 promises a message for later.
#[derive(Debug, Clone, PartialEq)]
pub struct InteractionResponse<T> {
    pub type_: u32,
    pub data: Option<T>,
}

impl<T> InteractionResponse<T> {
    /// An answer of the given type that carries `data`.
    pub fn new(type_: u32, data: Option<T>) -> (response: InteractionResponse<T>)
        ensures
            response.type_ == type_,
            response.data == data,
    {
        InteractionResponse { type_, data }
    }
}

} // verus!
