//! Channels and threads.

use vstd::prelude::*;
use crate::json::{Json, JsonModel};

verus! {

/// A channel, or a thread in one.
#[derive(Debug, Clone, PartialEq)]
pub struct Channel {
    pub id: String,
    pub name: Option<String>,
    /// Discord's channel type number: 0 for a text channel, 11 and 12 for
    /// public and private threads.
    pub type_: u32,
    /// The channel's description.
    pub topic: Option<String>,
    pub guild_id: Option<String>,
    /// For a thread, the channel it was started in.
    pub parent_id: Option<String>,
    pub owner_id: Option<String>,
    pub last_message_id: Option<String>,
    pub message_count: Option<u32>,
    pub member_count: Option<u32>,
    pub rate_limit_per_user: Option<u32>,
    pub total_message_sent: Option<u32>,
}

/// Mathematical model of a [`Channel`].
pub ghost struct ChannelView {
    pub id: Seq<char>,
    pub name: Option<Seq<char>>,
    pub type_: u32,
    pub topic: Option<Seq<char>>,
    pub guild_id: Option<Seq<char>>,
    pub parent_id: Option<Seq<char>>,
    pub owner_id: Option<Seq<char>>,
    pub last_message_id: Option<Seq<char>>,
    pub message_count: Option<u32>,
    pub member_count: Option<u32>,
    pub rate_limit_per_user: Option<u32>,
    pub total_message_sent: Option<u32>,
}

impl ChannelView {
    /// The channel that a JSON object describes: `id` is a string and
    /// `type` a number; the other members are strings or numbers that may
    /// be missing or `null`. Members not named here are ignored.
    pub open spec fn of_json(json: JsonModel) -> Option<ChannelView> {
        match (json.required_text("id"@), json.required_unsigned32("type"@)) {
            (Some(id), Some(type_)) => match (
                json.optional_text("name"@),
                json.optional_text("topic"@),
                json.optional_text("guild_id"@),
                json.optional_text("parent_id"@),
                json.optional_text("owner_id"@),
                json.optional_text("last_message_id"@),
            ) {
                (
                    Some(name),
                    Some(topic),
                    Some(guild_id),
                    Some(parent_id),
                    Some(owner_id),
                    Some(last_message_id),
                ) => match (
                    json.optional_unsigned32("message_count"@),
                    json.optional_unsigned32("member_count"@),
                    json.optional_unsigned32("rate_limit_per_user"@),
                    json.optional_unsigned32("total_message_sent"@),
                ) {
                    (
                        Some(message_count),
                        Some(member_count),
                        Some(rate_limit_per_user),
                        Some(total_message_sent),
                    ) => Some(
                        ChannelView {
                            id,
                            name,
                            type_,
                            topic,
                            guild_id,
                            parent_id,
                            owner_id,
                            last_message_id,
                            message_count,
                            member_count,
                            rate_limit_per_user,
                            total_message_sent,
                        },
                    ),
                    _ => None,
                },
                _ => None,
            },
            _ => None,
        }
    }

    /// Whether the channel is a thread.
    pub open spec fn is_thread(self) -> bool {
        self.type_ == 11 || self.type_ == 12
    }
}

impl View for Channel {
    type V = ChannelView;

    open spec fn view(&self) -> ChannelView {
        ChannelView {
            id: self.id@,
            name: self.name.deep_view(),
            type_: self.type_,
            topic: self.topic.deep_view(),
            guild_id: self.guild_id.deep_view(),
            parent_id: self.parent_id.deep_view(),
            owner_id: self.owner_id.deep_view(),
            last_message_id: self.last_message_id.deep_view(),
            message_count: self.message_count,
            member_count: self.member_count,
            rate_limit_per_user: self.rate_limit_per_user,
            total_message_sent: self.total_message_sent,
        }
    }
}

impl DeepView for Channel {
    type V = ChannelView;

    open spec fn deep_view(&self) -> ChannelView {
        self@
    }
}

impl Channel {
    /// Reads a channel from a JSON object.
    pub fn from_json(json: &Json) -> (channel: Option<Channel>)
        ensures
            channel.deep_view() == ChannelView::of_json(json@),
    {
        let id = match json.required_text("id") {
            Some(id) => id,
            None => { return None; },
        };
        let type_ = match json.required_unsigned32("type") {
            Some(type_) => type_,
            None => { return None; },
        };
        let name = match json.optional_text("name") {
            Some(name) => name,
            None => { return None; },
        };
        let topic = match json.optional_text("topic") {
            Some(topic) => topic,
            None => { return None; },
        };
        let guild_id = match json.optional_text("guild_id") {
            Some(guild_id) => guild_id,
            None => { return None; },
        };
        let parent_id = match json.optional_text("parent_id") {
            Some(parent_id) => parent_id,
            None => { return None; },
        };
        let owner_id = match json.optional_text("owner_id") {
            Some(owner_id) => owner_id,
            None => { return None; },
        };
        let last_message_id = match json.optional_text("last_message_id") {
            Some(last_message_id) => last_message_id,
            None => { return None; },
        };
        let message_count = match json.optional_unsigned32("message_count") {
            Some(message_count) => message_count,
            None => { return None; },
        };
        let member_count = match json.optional_unsigned32("member_count") {
            Some(member_count) => member_count,
            None => { return None; },
        };
        let rate_limit_per_user = match json.optional_unsigned32("rate_limit_per_user") {
            Some(rate_limit_per_user) => rate_limit_per_user,
            None => { return None; },
        };
        let total_message_sent = match json.optional_unsigned32("total_message_sent") {
            Some(total_message_sent) => total_message_sent,
            None => { return None; },
        };
        Some(
            Channel {
                id,
                name,
                type_,
                topic,
                guild_id,
                parent_id,
                owner_id,
                last_message_id,
                message_count,
                member_count,
                rate_limit_per_user,
                total_message_sent,
            },
        )
    }

    /// Whether the channel is a thread.
    pub fn is_thread(&self) -> (thread: bool)
        ensures
            thread == self@.is_thread(),
    {
        self.type_ == 11 || self.type_ == 12
    }
}

} // verus!
