//! The shape in which a command is registered with the platform, and what it
//! means for the options of an interaction to have that shape.

use crate::commands::options::{CommandOptionView, OptionValueView};
use vstd::prelude::*;
use vstd::string::*;

verus! {

/// The kinds of option that the commands are registered with.
#[derive(Debug, Clone, Copy, PartialEq, Eq, Structural)]
pub enum OptionKind {
    Integer,
    SubCommand,
    SubCommandGroup,
}

/// One option of a registered command, with the options below it.
#[derive(Debug)]
pub struct OptionSpec {
    pub kind: OptionKind,
    pub name: String,
    pub description: String,
    pub required: bool,
    pub min_int_value: Option<u64>,
    pub max_int_value: Option<u64>,
    pub sub_options: Vec<OptionSpec>,
}

/// A command as it is registered.
#[derive(Debug)]
pub struct CommandSpec {
    pub name: String,
    pub description: String,
    pub options: Vec<OptionSpec>,
}

pub struct OptionSpecView {
    pub kind: OptionKind,
    pub name: Seq<char>,
    pub description: Seq<char>,
    pub required: bool,
    pub min_int_value: Option<u64>,
    pub max_int_value: Option<u64>,
    pub sub_options: Seq<OptionSpecView>,
}

pub struct CommandSpecView {
    pub name: Seq<char>,
    pub description: Seq<char>,
    pub options: Seq<OptionSpecView>,
}

/// The views of `specs`, in their order.
pub open spec fn spec_views(specs: Seq<OptionSpec>) -> Seq<OptionSpecView>
    decreases specs,
{
    Seq::new(
        specs.len(),
        |i: int|
            if 0 <= i < specs.len() {
                spec_view(specs[i])
            } else {
                arbitrary()
            },
    )
}

pub open spec fn spec_view(spec: OptionSpec) -> OptionSpecView
    decreases spec,
{
    OptionSpecView {
        kind: spec.kind,
        name: spec.name@,
        description: spec.description@,
        required: spec.required,
        min_int_value: spec.min_int_value,
        max_int_value: spec.max_int_value,
        sub_options: spec_views(spec.sub_options@),
    }
}

impl View for OptionSpec {
    type V = OptionSpecView;

    open spec fn view(&self) -> OptionSpecView {
        spec_view(*self)
    }
}

impl View for CommandSpec {
    type V = CommandSpecView;

    open spec fn view(&self) -> CommandSpecView {
        CommandSpecView {
            name: self.name@,
            description: self.description@,
            options: spec_views(self.options@),
        }
    }
}

/// A required integer option, with bounds where they are given.
pub open spec fn integer_spec(
    name: Seq<char>,
    description: Seq<char>,
    min_int_value: Option<u64>,
    max_int_value: Option<u64>,
) -> OptionSpecView {
    OptionSpecView {
        kind: OptionKind::Integer,
        name,
        description,
        required: true,
        min_int_value,
        max_int_value,
        sub_options: Seq::empty(),
    }
}

/// A subcommand or a group of subcommands with the options below it.
pub open spec fn nested_spec(
    kind: OptionKind,
    name: Seq<char>,
    description: Seq<char>,
    sub_options: Seq<OptionSpecView>,
) -> OptionSpecView {
    OptionSpecView {
        kind,
        name,
        description,
        required: false,
        min_int_value: None,
        max_int_value: None,
        sub_options,
    }
}

pub fn integer(
    name: &str,
    description: &str,
    min_int_value: Option<u64>,
    max_int_value: Option<u64>,
) -> (spec: OptionSpec)
    ensures
        spec@ == integer_spec(name@, description@, min_int_value, max_int_value),
{
    let spec = OptionSpec {
        kind: OptionKind::Integer,
        name: String::from_str(name),
        description: String::from_str(description),
        required: true,
        min_int_value,
        max_int_value,
        sub_options: Vec::new(),
    };
    assert(spec@.sub_options =~= Seq::empty());
    spec
}

pub fn nested(
    kind: OptionKind,
    name: &str,
    description: &str,
    sub_options: Vec<OptionSpec>,
) -> (spec: OptionSpec)
    ensures
        spec@ == nested_spec(kind, name@, description@, spec_views(sub_options@)),
{
    OptionSpec {
        kind,
        name: String::from_str(name),
        description: String::from_str(description),
        required: false,
        min_int_value: None,
        max_int_value: None,
        sub_options,
    }
}

/// Whether `spec` is a subcommand or a group: an interaction then holds one
/// of the options registered beside it, not all of them.
pub open spec fn is_choice(spec: OptionSpecView) -> bool {
    spec.kind == OptionKind::SubCommand || spec.kind == OptionKind::SubCommandGroup
}

/// Whether the value has the registered kind and, for an integer, lies
/// within the registered bounds.
pub open spec fn value_fits(value: OptionValueView, spec: OptionSpecView) -> bool
    decreases spec,
{
    match spec.kind {
        OptionKind::Integer => value matches OptionValueView::Integer(n) && (
        spec.min_int_value matches Some(min) ==> n >= min) && (spec.max_int_value matches Some(max)
            ==> n <= max),
        OptionKind::SubCommand => value matches OptionValueView::SubCommand(options)
            && options_fit(options, spec.sub_options),
        OptionKind::SubCommandGroup => value matches OptionValueView::SubCommandGroup(options)
            && options_fit(options, spec.sub_options),
    }
}

/// Whether the options of an interaction have the registered shape. Where
/// subcommands or groups are registered, exactly one option is there and it
/// is one of them. Where values are registered, all of which are required,
/// every one is there, in the registered order.
pub open spec fn options_fit(options: Seq<CommandOptionView>, specs: Seq<OptionSpecView>) -> bool
    decreases specs,
{
    if specs.len() > 0 && is_choice(specs[0]) {
        options.len() == 1 && exists|k: int|
            0 <= k < specs.len() && options[0].name == (#[trigger] specs[k]).name && value_fits(
                options[0].value,
                specs[k],
            )
    } else {
        options.len() == specs.len() && forall|i: int|
            0 <= i < specs.len() ==> (#[trigger] options[i]).name == specs[i].name && value_fits(
                options[i].value,
                specs[i],
            )
    }
}

/// Whether the options of an interaction have the shape that the command is
/// registered with.
pub open spec fn interaction_fits(options: Seq<CommandOptionView>, command: CommandSpecView) -> bool {
    options_fit(options, command.options)
}

} // verus!
