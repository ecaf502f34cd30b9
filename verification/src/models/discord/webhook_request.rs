//! What is sent to show or change a follow-up message.

use vstd::prelude::*;

verus! {

/// The text of a follow-up message.
#[derive(Debug, Clone, PartialEq)]
pub struct WebhookRequest {
    pub content: String,
}

/// Mathematical model of a [`WebhookRequest`].
pub ghost struct WebhookRequestView {
    pub content: Seq<char>,
}

impl View for WebhookRequest {
    type V = WebhookRequestView;

    open spec fn view(&self) -> WebhookRequestView {
        WebhookRequestView { content: self.content@ }
    }
}

impl DeepView for WebhookRequest {
    type V = WebhookRequestView;

    open spec fn deep_view(&self) -> WebhookRequestView {
        self@
    }
}

} // verus!
