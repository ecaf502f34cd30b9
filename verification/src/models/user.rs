//! Who wrote a message or invoked a command.

use vstd::prelude::*;
use crate::json::{Json, JsonModel};

verus! {

/// A Discord account.
#[derive(Debug, Clone, PartialEq)]
pub struct DiscordUser {
    pub id: String,
    pub username: String,
    pub discriminator: String,
}

/// Mathematical model of a [`DiscordUser`].
pub ghost struct DiscordUserView {
    pub id: Seq<char>,
    pub username: Seq<char>,
    pub discriminator: Seq<char>,
}

impl DiscordUserView {
    /// The account that a JSON object describes: `id`, `username` and
    /// `discriminator` are strings.
    pub open spec fn of_json(json: JsonModel) -> Option<DiscordUserView> {
        match (
            json.required_text("id"@),
            json.required_text("username"@),
            json.required_text("discriminator"@),
        ) {
            (Some(id), Some(username), Some(discriminator)) => Some(
                DiscordUserView { id, username, discriminator },
            ),
            _ => None,
        }
    }

    /// The account in the member `key` of `json`, which may be missing or
    /// `null`: the outer `None` says that it holds something that is not
    /// an account.
    pub open spec fn optional(json: JsonModel, key: Seq<char>) -> Option<Option<DiscordUserView>> {
        match json.present(key) {
            Some(value) => match DiscordUserView::of_json(value) {
                Some(user) => Some(Some(user)),
                None => None,
            },
            None => Some(None),
        }
    }
}

impl View for DiscordUser {
    type V = DiscordUserView;

    open spec fn view(&self) -> DiscordUserView {
        DiscordUserView {
            id: self.id@,
            username: self.username@,
            discriminator: self.discriminator@,
        }
    }
}

impl DeepView for DiscordUser {
    type V = DiscordUserView;

    open spec fn deep_view(&self) -> DiscordUserView {
        self@
    }
}

impl DiscordUser {
    /// Reads an account from a JSON object.
    pub fn from_json(json: &Json) -> (user: Option<DiscordUser>)
        ensures
            user.deep_view() == DiscordUserView::of_json(json@),
    {
        let id = match json.required_text("id") {
            Some(id) => id,
            None => { return None; },
        };
        let username = match json.required_text("username") {
            Some(username) => username,
            None => { return None; },
        };
        let discriminator = match json.required_text("discriminator") {
            Some(discriminator) => discriminator,
            None => { return None; },
        };
        Some(DiscordUser { id, username, discriminator })
    }

    /// Reads the account in the member `key` of `json`, which may be
    /// missing or `null`.
    pub fn optional(json: &Json, key: &str) -> (user: Option<Option<DiscordUser>>)
        ensures
            user.deep_view() == DiscordUserView::optional(json@, key@),
    {
        match json.present(key) {
            Some(value) => match DiscordUser::from_json(value) {
                Some(user) => Some(Some(user)),
                None => None,
            },
            None => Some(None),
        }
    }
}

/// A guild member: the account it belongs to, where Discord sent one.
#[derive(Debug, Clone, PartialEq)]
pub struct DiscordGuildMember {
    pub user: Option<DiscordUser>,
}

/// Mathematical model of a [`DiscordGuildMember`].
pub ghost struct DiscordGuildMemberView {
    pub user: Option<DiscordUserView>,
}

impl DiscordGuildMemberView {
    /// The member that a JSON object describes: `user` is an account, and
    /// may be missing or `null`.
    pub open spec fn of_json(json: JsonModel) -> Option<DiscordGuildMemberView> {
        if !json.is_object() {
            None
        } else {
            match DiscordUserView::optional(json, "user"@) {
                Some(user) => Some(DiscordGuildMemberView { user }),
                None => None,
            }
        }
    }
}

impl DiscordGuildMember {
    /// Reads a guild member from a JSON object.
    pub fn from_json(json: &Json) -> (member: Option<DiscordGuildMember>)
        ensures
            member.deep_view() == DiscordGuildMemberView::of_json(json@),
    {
        if !json.is_object() {
            return None;
        }
        match DiscordUser::optional(json, "user") {
            Some(user) => Some(DiscordGuildMember { user }),
            None => None,
        }
    }
}

impl View for DiscordGuildMember {
    type V = DiscordGuildMemberView;

    open spec fn view(&self) -> DiscordGuildMemberView {
        DiscordGuildMemberView { user: self.user.deep_view() }
    }
}

impl DeepView for DiscordGuildMember {
    type V = DiscordGuildMemberView;

    open spec fn deep_view(&self) -> DiscordGuildMemberView {
        self@
    }
}

} // verus!
