//! From what the command line parser found to the command to run.

use super::commands::{
    command_text, ActiveCommand, ActiveCommandView, ArgName, Argument, ArgumentView,
    SubCommandName,
};
use crate::error::{outcome_view, ShranError, ShranErrorView};
use crate::utils::text::same_text;
use vstd::prelude::*;

verus! {

/// The arguments that were found, each taken by its view.
pub open spec fn arguments_view(arguments: Seq<Argument>) -> Seq<ArgumentView> {
    arguments.map_values(|argument: Argument| argument@)
}

/// The first of `arguments` that is called `name`.
pub open spec fn named_argument(arguments: Seq<ArgumentView>, name: Seq<char>) -> Option<
    ArgumentView,
>
    decreases arguments.len(),
{
    if arguments.len() == 0 {
        None
    } else if arguments[0].name == name {
        Some(arguments[0])
    } else {
        named_argument(arguments.drop_first(), name)
    }
}

/// Whether an argument called `name` was found.
pub open spec fn is_present(arguments: Seq<ArgumentView>, name: Seq<char>) -> bool {
    named_argument(arguments, name) is Some
}

/// The value of the argument called `name`, if it was found with a value.
pub open spec fn value_of(arguments: Seq<ArgumentView>, name: Seq<char>) -> Option<Seq<char>> {
    match named_argument(arguments, name) {
        Some(argument) => argument.value,
        None => None,
    }
}

/// The command that takes the value of the argument called `name`, or
/// `MissingArgumentError` where there is no such value.
pub open spec fn command_with_value(
    sub_command: Seq<char>,
    arguments: Seq<ArgumentView>,
    name: Seq<char>,
) -> Result<ActiveCommandView, ShranErrorView> {
    match value_of(arguments, name) {
        Some(value) => Ok(
            ActiveCommandView { sub_command, arg: ArgumentView { value: Some(value), name } },
        ),
        None => Err(ShranErrorView::MissingArgumentError { name }),
    }
}

/// The command that is a flag: an argument without a value.
pub open spec fn command_with_flag(sub_command: Seq<char>, name: Seq<char>) -> ActiveCommandView {
    ActiveCommandView { sub_command, arg: ArgumentView { value: None, name } }
}

/// The command that the parsed command line asks for.
///
/// * `auth` takes the value of `token`.
/// * `build` takes the value of `strategy`, a path; where no file is at
///   that path, the result is `BuildFileError`.
/// * `fetch` takes the first of `list_remote`, `list_local` and `latest` that
///   is present, and else the value of `tag`.
/// * `generate` takes `bitcoin` where it is present, and else `litecoin`.
///
/// Any other subcommand is an `UnrecognizedSubcommandError`, and a missing
/// value a `MissingArgumentError`.
pub open spec fn active_command_of(
    sub_command: Seq<char>,
    arguments: Seq<ArgumentView>,
    build_file_exists: bool,
) -> Result<ActiveCommandView, ShranErrorView> {
    if sub_command == SubCommandName::AUTH@ {
        command_with_value(sub_command, arguments, ArgName::TOKEN@)
    } else if sub_command == SubCommandName::BUILD@ {
        match value_of(arguments, ArgName::STRATEGY@) {
            Some(path) => if build_file_exists {
                command_with_value(sub_command, arguments, ArgName::STRATEGY@)
            } else {
                Err(ShranErrorView::BuildFileError { path })
            },
            None => Err(ShranErrorView::MissingArgumentError { name: ArgName::STRATEGY@ }),
        }
    } else if sub_command == SubCommandName::FETCH@ {
        if is_present(arguments, ArgName::LIST_REMOTE@) {
            Ok(command_with_flag(sub_command, ArgName::LIST_REMOTE@))
        } else if is_present(arguments, ArgName::LIST_LOCAL@) {
            Ok(command_with_flag(sub_command, ArgName::LIST_LOCAL@))
        } else if is_present(arguments, ArgName::LATEST@) {
            Ok(command_with_flag(sub_command, ArgName::LATEST@))
        } else {
            command_with_value(sub_command, arguments, ArgName::TAG@)
        }
    } else if sub_command == SubCommandName::GENERATE@ {
        if is_present(arguments, ArgName::BITCOIN@) {
            Ok(command_with_flag(sub_command, ArgName::BITCOIN@))
        } else {
            Ok(command_with_flag(sub_command, ArgName::LITECOIN@))
        }
    } else {
        Err(ShranErrorView::UnrecognizedSubcommandError { name: sub_command })
    }
}

/// Where no argument before position `i` is called `name`, the named argument
/// is the one at `i`, if it is called `name`, and none if `i` is the end.
pub proof fn lemma_named_argument_at(arguments: Seq<ArgumentView>, name: Seq<char>, i: int)
    requires
        0 <= i <= arguments.len(),
        forall|j: int| 0 <= j < i ==> (#[trigger] arguments[j]).name != name,
        i < arguments.len() ==> arguments[i].name == name,
    ensures
        named_argument(arguments, name) == (if i < arguments.len() {
            Some(arguments[i])
        } else {
            None
        }),
    decreases i,
{
    if i > 0 {
        let rest = arguments.drop_first();
        assert(arguments[0].name != name);
        assert forall|j: int| 0 <= j < i - 1 implies (#[trigger] rest[j]).name != name by {
            assert(rest[j] == arguments[j + 1]);
        }
        if i < arguments.len() {
            assert(rest[i - 1] == arguments[i]);
        }
        lemma_named_argument_at(rest, name, i - 1);
    }
}

/// The first of `arguments` that is called `name`.
pub fn find_argument<'a>(arguments: &'a Vec<Argument>, name: &str) -> (found: Option<&'a Argument>)
    ensures
        match found {
            Some(argument) => named_argument(arguments_view(arguments@), name@) == Some(argument@),
            None => named_argument(arguments_view(arguments@), name@) is None,
        },
{
    let mut i: usize = 0;
    while i < arguments.len()
        invariant
            i <= arguments.len(),
            forall|j: int| 0 <= j < i ==> (#[trigger] arguments_view(arguments@)[j]).name != name@,
        decreases arguments.len() - i,
    {
        if same_text(arguments[i].name.as_str(), name) {
            proof {
                lemma_named_argument_at(arguments_view(arguments@), name@, i as int);
            }
            return Some(&arguments[i]);
        }
        i += 1;
    }
    proof {
        lemma_named_argument_at(arguments_view(arguments@), name@, i as int);
    }
    None
}

/// The command line as the user gave it, reduced to the command to run.
#[derive(Debug)]
pub struct Cli {
    active_command: ActiveCommand,
}

impl View for Cli {
    type V = ActiveCommandView;

    closed spec fn view(&self) -> ActiveCommandView {
        self.active_command@
    }
}

impl Cli {
    /// The command line that asks for the command that the parser's findings
    /// describe.
    ///
    /// * `sub_command` the subcommand that was found
    /// * `arguments` the arguments that were found, with their values
    /// * `build_file_exists` whether a file is at the path that the value of
    ///   `strategy` names; it counts for `build` only
    pub fn new(sub_command: &str, arguments: &Vec<Argument>, build_file_exists: bool) -> (result:
        Result<Self, ShranError>)
        ensures
            outcome_view(result) == active_command_of(
                sub_command@,
                arguments_view(arguments@),
                build_file_exists,
            ),
    {
        match Self::get_active_command(sub_command, arguments, build_file_exists) {
            Ok(active_command) => Ok(Self { active_command }),
            Err(error) => Err(error),
        }
    }

    /// The command that takes the value of the argument called `name`.
    fn with_value(sub_command: &str, arguments: &Vec<Argument>, name: &str) -> (result: Result<
        ActiveCommand,
        ShranError,
    >)
        ensures
            outcome_view(result) == command_with_value(
                sub_command@,
                arguments_view(arguments@),
                name@,
            ),
    {
        if let Some(argument) = find_argument(arguments, name) {
            if let Some(value) = &argument.value {
                return Ok(
                    ActiveCommand::new(
                        sub_command,
                        Argument { value: Some(value.clone()), name: name.to_owned() },
                    ),
                );
            }
        }
        Err(ShranError::MissingArgumentError { name: name.to_owned() })
    }

    /// The command that is the flag called `name`.
    fn with_flag(sub_command: &str, name: &str) -> (command: ActiveCommand)
        ensures
            command@ == command_with_flag(sub_command@, name@),
    {
        let mut active_arg: Argument = Default::default();
        active_arg.name = name.to_owned();
        ActiveCommand::new(sub_command, active_arg)
    }

    /// The command that the parser's findings describe.
    pub fn get_active_command(
        sub_command: &str,
        arguments: &Vec<Argument>,
        build_file_exists: bool,
    ) -> (result: Result<ActiveCommand, ShranError>)
        ensures
            outcome_view(result) == active_command_of(
                sub_command@,
                arguments_view(arguments@),
                build_file_exists,
            ),
    {
        if same_text(sub_command, SubCommandName::AUTH) {
            Self::with_value(sub_command, arguments, ArgName::TOKEN)
        } else if same_text(sub_command, SubCommandName::BUILD) {
            match Self::with_value(sub_command, arguments, ArgName::STRATEGY) {
                Ok(command) => {
                    if !build_file_exists {
                        if let Some(path) = command.arg().value {
                            return Err(ShranError::BuildFileError { path });
                        }
                    }
                    Ok(command)
                },
                Err(error) => Err(error),
            }
        } else if same_text(sub_command, SubCommandName::FETCH) {
            if find_argument(arguments, ArgName::LIST_REMOTE).is_some() {
                Ok(Self::with_flag(sub_command, ArgName::LIST_REMOTE))
            } else if find_argument(arguments, ArgName::LIST_LOCAL).is_some() {
                Ok(Self::with_flag(sub_command, ArgName::LIST_LOCAL))
            } else if find_argument(arguments, ArgName::LATEST).is_some() {
                Ok(Self::with_flag(sub_command, ArgName::LATEST))
            } else {
                Self::with_value(sub_command, arguments, ArgName::TAG)
            }
        } else if same_text(sub_command, SubCommandName::GENERATE) {
            if find_argument(arguments, ArgName::BITCOIN).is_some() {
                Ok(Self::with_flag(sub_command, ArgName::BITCOIN))
            } else {
                Ok(Self::with_flag(sub_command, ArgName::LITECOIN))
            }
        } else {
            Err(ShranError::UnrecognizedSubcommandError { name: sub_command.to_owned() })
        }
    }

    /// The command to run.
    pub fn active_command(&self) -> (command: &ActiveCommand)
        ensures
            command@ == self@,
    {
        &self.active_command
    }

    #[inline(always)]
    pub fn subcommand_auth(&self) -> (is_auth: bool)
        ensures
            is_auth == (self@.sub_command == SubCommandName::AUTH@),
    {
        same_text(self.active_command.sub_command().as_str(), SubCommandName::AUTH)
    }

    #[inline(always)]
    pub fn subcommand_build(&self) -> (is_build: bool)
        ensures
            is_build == (self@.sub_command == SubCommandName::BUILD@),
    {
        same_text(self.active_command.sub_command().as_str(), SubCommandName::BUILD)
    }

    #[inline(always)]
    pub fn subcommand_fetch(&self) -> (is_fetch: bool)
        ensures
            is_fetch == (self@.sub_command == SubCommandName::FETCH@),
    {
        same_text(self.active_command.sub_command().as_str(), SubCommandName::FETCH)
    }

    #[inline(always)]
    pub fn subcommand_generate(&self) -> (is_generate: bool)
        ensures
            is_generate == (self@.sub_command == SubCommandName::GENERATE@),
    {
        same_text(self.active_command.sub_command().as_str(), SubCommandName::GENERATE)
    }

    #[inline(always)]
    pub fn args(&self) -> (arg: Argument)
        ensures
            arg@ == self@.arg,
    {
        self.active_command.arg()
    }

    /// The lines in which the command line is shown.
    pub fn to_text(&self) -> (text: String)
        ensures
            text@ == command_text(self@),
    {
        self.active_command.to_text()
    }
}

} // verus!
