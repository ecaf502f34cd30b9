//! Commands as they are registered with Discord.

use vstd::prelude::*;

verus! {

/// One option that a command offers.
#[derive(Debug, Clone, PartialEq)]
pub struct ApplicationCommandOption {
    pub name: String,
    /// Discord's option type number: 4 for an integer.
    pub type_: u32,
    pub description: String,
    pub required: Option<bool>,
    pub min_length: Option<u32>,
    pub max_value: Option<u32>,
}

/// Mathematical model of an [`ApplicationCommandOption`].
pub ghost struct ApplicationCommandOptionView {
    pub name: Seq<char>,
    pub type_: u32,
    pub description: Seq<char>,
    pub required: Option<bool>,
    pub min_length: Option<u32>,
    pub max_value: Option<u32>,
}

impl View for ApplicationCommandOption {
    type V = ApplicationCommandOptionView;

    open spec fn view(&self) -> ApplicationCommandOptionView {
        ApplicationCommandOptionView {
            name: self.name@,
            type_: self.type_,
            description: self.description@,
            required: self.required,
            min_length: self.min_length,
            max_value: self.max_value,
        }
    }
}

impl DeepView for ApplicationCommandOption {
    type V = ApplicationCommandOptionView;

    open spec fn deep_view(&self) -> ApplicationCommandOptionView {
        self@
    }
}

/// A command of the bot.
#[derive(Debug, Clone, PartialEq)]
pub struct ApplicationCommand {
    pub name: String,
    /// Discord's command type number: 1 for a slash command, 3 for a
    /// command on a message.
    pub type_: u32,
    pub description: Option<String>,
    pub options: Option<Vec<ApplicationCommandOption>>,
}

/// Mathematical model of an [`ApplicationCommand`].
pub ghost struct ApplicationCommandView {
    pub name: Seq<char>,
    pub type_: u32,
    pub description: Option<Seq<char>>,
    pub options: Option<Seq<ApplicationCommandOptionView>>,
}

impl View for ApplicationCommand {
    type V = ApplicationCommandView;

    open spec fn view(&self) -> ApplicationCommandView {
        ApplicationCommandView {
            name: self.name@,
            type_: self.type_,
            description: self.description.deep_view(),
            options: self.options.deep_view(),
        }
    }
}

impl DeepView for ApplicationCommand {
    type V = ApplicationCommandView;

    open spec fn deep_view(&self) -> ApplicationCommandView {
        self@
    }
}

} // verus!
