//! The options that an interaction carries.

use vstd::prelude::*;

verus! {

/// What an option holds: a value, or, for a subcommand or a group of
/// subcommands, the options below it.
#[derive(Debug)]
pub enum OptionValue {
    Integer(i64),
    Text(String),
    SubCommand(Vec<CommandOption>),
    SubCommandGroup(Vec<CommandOption>),
    /// A value of a kind that no command reads.
    Other,
}

/// One node of the option tree of an interaction.
#[derive(Debug)]
pub struct CommandOption {
    pub name: String,
    pub value: OptionValue,
}

pub enum OptionValueView {
    Integer(i64),
    Text(Seq<char>),
    SubCommand(Seq<CommandOptionView>),
    SubCommandGroup(Seq<CommandOptionView>),
    Other,
}

pub struct CommandOptionView {
    pub name: Seq<char>,
    pub value: OptionValueView,
}

/// The views of the options `options`, in their order.
pub open spec fn option_views(options: Seq<CommandOption>) -> Seq<CommandOptionView>
    decreases options,
{
    Seq::new(
        options.len(),
        |i: int|
            if 0 <= i < options.len() {
                option_view(options[i])
            } else {
                arbitrary()
            },
    )
}

pub open spec fn option_view(option: CommandOption) -> CommandOptionView
    decreases option,
{
    CommandOptionView {
        name: option.name@,
        value: match option.value {
            OptionValue::Integer(n) => OptionValueView::Integer(n),
            OptionValue::Text(t) => OptionValueView::Text(t@),
            OptionValue::SubCommand(options) => OptionValueView::SubCommand(
                option_views(options@),
            ),
            OptionValue::SubCommandGroup(options) => OptionValueView::SubCommandGroup(
                option_views(options@),
            ),
            OptionValue::Other => OptionValueView::Other,
        },
    }
}

impl View for CommandOption {
    type V = CommandOptionView;

    open spec fn view(&self) -> CommandOptionView {
        option_view(*self)
    }
}

/// The integer that the option at `index` holds, if there is such an option
/// and it holds one.
pub open spec fn integer_at(options: Seq<CommandOptionView>, index: int) -> Option<i64> {
    if 0 <= index < options.len() {
        match options[index].value {
            OptionValueView::Integer(n) => Some(n),
            _ => None,
        }
    } else {
        None
    }
}

/// Reads the integer of the option at `index`.
pub fn integer_option(options: &Vec<CommandOption>, index: usize) -> (value: Option<i64>)
    ensures
        value == integer_at(option_views(options@), index as int),
{
    if index < options.len() {
        match &options[index].value {
            OptionValue::Integer(n) => Some(*n),
            _ => None,
        }
    } else {
        None
    }
}

/// One invocation of a command: its name, who invoked it, and its options.
#[derive(Debug)]
pub struct Interaction {
    pub name: String,
    pub user_id: u64,
    pub options: Vec<CommandOption>,
}

pub struct InteractionView {
    pub name: Seq<char>,
    pub user_id: u64,
    pub options: Seq<CommandOptionView>,
}

impl View for Interaction {
    type V = InteractionView;

    open spec fn view(&self) -> InteractionView {
        InteractionView {
            name: self.name@,
            user_id: self.user_id,
            options: option_views(self.options@),
        }
    }
}

} // verus!
