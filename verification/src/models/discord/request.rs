//! What Discord sends when a user interacts with the bot.

use vstd::prelude::*;
use crate::json::{decode_each, Json, JsonModel};
use crate::models::user::{
    DiscordGuildMember,
    DiscordGuildMemberView,
    DiscordUser,
    DiscordUserView,
};

verus! {

/// The value a user gave to an option of a command.
#[derive(Debug, Clone, PartialEq)]
pub enum CommandInteractionOptionValue {
    Int(i32),
    String(String),
}

/// Mathematical model of a [`CommandInteractionOptionValue`].
pub ghost enum CommandInteractionOptionValueView {
    Int(i32),
    String(Seq<char>),
}

impl CommandInteractionOptionValueView {
    /// The value that a JSON value describes: an integer of 32 signed
    /// bits, or a string.
    pub open spec fn of_json(json: JsonModel) -> Option<CommandInteractionOptionValueView> {
        match json {
            JsonModel::Number(_) => match json.signed32() {
                Some(n) => Some(CommandInteractionOptionValueView::Int(n)),
                None => None,
            },
            JsonModel::Text(s) => Some(CommandInteractionOptionValueView::String(s)),
            _ => None,
        }
    }
}

impl View for CommandInteractionOptionValue {
    type V = CommandInteractionOptionValueView;

    open spec fn view(&self) -> CommandInteractionOptionValueView {
        match self {
            CommandInteractionOptionValue::Int(n) => CommandInteractionOptionValueView::Int(*n),
            CommandInteractionOptionValue::String(s) => CommandInteractionOptionValueView::String(
                s@,
            ),
        }
    }
}

impl DeepView for CommandInteractionOptionValue {
    type V = CommandInteractionOptionValueView;

    open spec fn deep_view(&self) -> CommandInteractionOptionValueView {
        self@
    }
}

impl CommandInteractionOptionValue {
    /// Reads an option's value from a JSON value.
    pub fn from_json(json: &Json) -> (value: Option<CommandInteractionOptionValue>)
        ensures
            value.deep_view() == CommandInteractionOptionValueView::of_json(json@),
    {
        match json {
            Json::Number(_) => match json.signed32() {
                Some(n) => Some(CommandInteractionOptionValue::Int(n)),
                None => None,
            },
            Json::Text(s) => Some(CommandInteractionOptionValue::String(s.clone())),
            _ => None,
        }
    }
}

/// One option of a command as the user filled it in.
#[derive(Debug, Clone, PartialEq)]
pub struct CommandInteractionOption {
    pub name: String,
    /// Discord's option type number.
    pub type_: u32,
    pub value: Option<CommandInteractionOptionValue>,
}

/// Mathematical model of a [`CommandInteractionOption`].
pub ghost struct CommandInteractionOptionView {
    pub name: Seq<char>,
    pub type_: u32,
    pub value: Option<CommandInteractionOptionValueView>,
}

impl CommandInteractionOptionView {
    /// The option that a JSON object describes: `name` is a string, `type`
    /// a number, and `value` a value that may be missing or `null`.
    pub open spec fn of_json(json: JsonModel) -> Option<CommandInteractionOptionView> {
        match (json.required_text("name"@), json.required_unsigned32("type"@)) {
            (Some(name), Some(type_)) => match json.present("value"@) {
                Some(value_json) => match CommandInteractionOptionValueView::of_json(value_json) {
                    Some(value) => Some(
                        CommandInteractionOptionView { name, type_, value: Some(value) },
                    ),
                    None => None,
                },
                None => Some(CommandInteractionOptionView { name, type_, value: None }),
            },
            _ => None,
        }
    }
}

impl View for CommandInteractionOption {
    type V = CommandInteractionOptionView;

    open spec fn view(&self) -> CommandInteractionOptionView {
        CommandInteractionOptionView {
            name: self.name@,
            type_: self.type_,
            value: self.value.deep_view(),
        }
    }
}

impl DeepView for CommandInteractionOption {
    type V = CommandInteractionOptionView;

    open spec fn deep_view(&self) -> CommandInteractionOptionView {
        self@
    }
}

impl CommandInteractionOption {
    /// Reads an option from a JSON object.
    pub fn from_json(json: &Json) -> (option: Option<CommandInteractionOption>)
        ensures
            option.deep_view() == CommandInteractionOptionView::of_json(json@),
    {
        let name = match json.required_text("name") {
            Some(name) => name,
            None => { return None; },
        };
        let type_ = match json.required_unsigned32("type") {
            Some(type_) => type_,
            None => { return None; },
        };
        match json.present("value") {
            Some(value_json) => match CommandInteractionOptionValue::from_json(value_json) {
                Some(value) => Some(CommandInteractionOption { name, type_, value: Some(value) }),
                None => None,
            },
            None => Some(CommandInteractionOption { name, type_, value: None }),
        }
    }
}

/// Which command was invoked, and with which options.
#[derive(Debug, Clone, PartialEq)]
pub struct InteractionData {
    pub id: String,
    pub name: String,
    /// Discord's command type number.
    pub type_: u32,
    pub options: Option<Vec<CommandInteractionOption>>,
}

/// Mathematical model of an [`InteractionData`].
pub ghost struct InteractionDataView {
    pub id: Seq<char>,
    pub name: Seq<char>,
    pub type_: u32,
    pub options: Option<Seq<CommandInteractionOptionView>>,
}

impl InteractionDataView {
    /// The invocation that a JSON object describes: `id` and `name` are
    /// strings, `type` is a number, and `options` an array of options that
    /// may be missing or `null`.
    pub open spec fn of_json(json: JsonModel) -> Option<InteractionDataView> {
        match (
            json.required_text("id"@),
            json.required_text("name"@),
            json.required_unsigned32("type"@),
        ) {
            (Some(id), Some(name), Some(type_)) => match json.present("options"@) {
                Some(options_json) => match options_json.items() {
                    Some(items) => match decode_each(
                        items,
                        |item: JsonModel| CommandInteractionOptionView::of_json(item),
                    ) {
                        Some(options) => Some(
                            InteractionDataView { id, name, type_, options: Some(options) },
                        ),
                        None => None,
                    },
                    None => None,
                },
                None => Some(InteractionDataView { id, name, type_, options: None }),
            },
            _ => None,
        }
    }
}

impl View for InteractionData {
    type V = InteractionDataView;

    open spec fn view(&self) -> InteractionDataView {
        InteractionDataView {
            id: self.id@,
            name: self.name@,
            type_: self.type_,
            options: self.options.deep_view(),
        }
    }
}

impl DeepView for InteractionData {
    type V = InteractionDataView;

    open spec fn deep_view(&self) -> InteractionDataView {
        self@
    }
}

impl InteractionData {
    /// Reads an invocation from a JSON object.
    #[verifier::loop_isolation(false)]
    pub fn from_json(json: &Json) -> (data: Option<InteractionData>)
        ensures
            data.deep_view() == InteractionDataView::of_json(json@),
    {
        let id = match json.required_text("id") {
            Some(id) => id,
            None => { return None; },
        };
        let name = match json.required_text("name") {
            Some(name) => name,
            None => { return None; },
        };
        let type_ = match json.required_unsigned32("type") {
            Some(type_) => type_,
            None => { return None; },
        };
        let items = match json.present("options") {
            Some(options_json) => match options_json.items() {
                Some(items) => items,
                None => { return None; },
            },
            None => { return Some(InteractionData { id, name, type_, options: None }); },
        };
        let ghost decode = |item: JsonModel| CommandInteractionOptionView::of_json(item);
        let mut options: Vec<CommandInteractionOption> = Vec::new();
        let mut i: usize = 0;
        while i < items.len()
            invariant
                i <= items.len(),
                options.len() == i,
                forall|k: int|
                    0 <= k < i ==> decode(#[trigger] items.deep_view()[k]) == Some(options[k]@),
            decreases items.len() - i,
        {
            match CommandInteractionOption::from_json(&items[i]) {
                Some(option) => {
                    options.push(option);
                },
                None => {
                    assert(decode(items.deep_view()[i as int]) is None);
                    return None;
                },
            }
            i += 1;
        }
        proof {
            let decoded = decode_each(items.deep_view(), decode);
            assert(decoded is Some);
            assert(decoded->Some_0 =~= options.deep_view());
        }
        Some(InteractionData { id, name, type_, options: Some(options) })
    }
}

/// An interaction: a ping, or the invocation of a command.
#[derive(Debug, Clone, PartialEq)]
pub struct InteractionRequest {
    pub id: String,
    /// The token under which follow-up messages are sent.
    pub token: String,
    /// 1 for a ping, 2 for the invocation of a command.
    pub type_: u32,
    pub channel_id: Option<String>,
    pub data: Option<InteractionData>,
    pub user: Option<DiscordUser>,
    pub member: Option<DiscordGuildMember>,
}

/// Mathematical model of an [`InteractionRequest`].
pub ghost struct InteractionRequestView {
    pub id: Seq<char>,
    pub token: Seq<char>,
    pub type_: u32,
    pub channel_id: Option<Seq<char>>,
    pub data: Option<InteractionDataView>,
    pub user: Option<DiscordUserView>,
    pub member: Option<DiscordGuildMemberView>,
}

impl InteractionRequestView {
    /// The invocation in the member `data` of `json`, which may be missing
    /// or `null`.
    pub open spec fn optional_data(json: JsonModel) -> Option<Option<InteractionDataView>> {
        match json.present("data"@) {
            Some(value) => match InteractionDataView::of_json(value) {
                Some(data) => Some(Some(data)),
                None => None,
            },
            None => Some(None),
        }
    }

    /// The guild member in the member `member` of `json`, which may be
    /// missing or `null`.
    pub open spec fn optional_member(json: JsonModel) -> Option<Option<DiscordGuildMemberView>> {
        match json.present("member"@) {
            Some(value) => match DiscordGuildMemberView::of_json(value) {
                Some(member) => Some(Some(member)),
                None => None,
            },
            None => Some(None),
        }
    }

    /// The interaction that a JSON object describes: `id` and `token` are
    /// strings and `type` is a number; `channel_id`, `data`, `user` and
    /// `member` may be missing or `null`. Other members are ignored.
    pub open spec fn of_json(json: JsonModel) -> Option<InteractionRequestView> {
        match (
            json.required_text("id"@),
            json.required_text("token"@),
            json.required_unsigned32("type"@),
            json.optional_text("channel_id"@),
            InteractionRequestView::optional_data(json),
            DiscordUserView::optional(json, "user"@),
            InteractionRequestView::optional_member(json),
        ) {
            (
                Some(id),
                Some(token),
                Some(type_),
                Some(channel_id),
                Some(data),
                Some(user),
                Some(member),
            ) => Some(InteractionRequestView { id, token, type_, channel_id, data, user, member }),
            _ => None,
        }
    }
}

impl View for InteractionRequest {
    type V = InteractionRequestView;

    open spec fn view(&self) -> InteractionRequestView {
        InteractionRequestView {
            id: self.id@,
            token: self.token@,
            type_: self.type_,
            channel_id: self.channel_id.deep_view(),
            data: self.data.deep_view(),
            user: self.user.deep_view(),
            member: self.member.deep_view(),
        }
    }
}

impl DeepView for InteractionRequest {
    type V = InteractionRequestView;

    open spec fn deep_view(&self) -> InteractionRequestView {
        self@
    }
}

impl InteractionRequest {
    /// Reads an interaction from a JSON object.
    pub fn from_json(json: &Json) -> (request: Option<InteractionRequest>)
        ensures
            request.deep_view() == InteractionRequestView::of_json(json@),
    {
        let id = match json.required_text("id") {
            Some(id) => id,
            None => { return None; },
        };
        let token = match json.required_text("token") {
            Some(token) => token,
            None => { return None; },
        };
        let type_ = match json.required_unsigned32("type") {
            Some(type_) => type_,
            None => { return None; },
        };
        let channel_id = match json.optional_text("channel_id") {
            Some(channel_id) => channel_id,
            None => { return None; },
        };
        let data = match json.present("data") {
            Some(value) => match InteractionData::from_json(value) {
                Some(data) => Some(data),
                None => { return None; },
            },
            None => None,
        };
        let user = match DiscordUser::optional(json, "user") {
            Some(user) => user,
            None => { return None; },
        };
        let member = match json.present("member") {
            Some(value) => match DiscordGuildMember::from_json(value) {
                Some(member) => Some(member),
                None => { return None; },
            },
            None => None,
        };
        Some(InteractionRequest { id, token, type_, channel_id, data, user, member })
    }
}

} // verus!
