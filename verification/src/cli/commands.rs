//! The subcommands and arguments of the command line.

use crate::utils::text::{copy_optional, optional_text};
use vstd::prelude::*;
use vstd::string::StringExecFns;

verus! {

/// The subcommands that the command line accepts.
///
/// * `auth` currently only supports a github token
/// * `build` requires a path to a relevant build template
/// * `fetch` lists all bitcoin versions, downloads the latest version, or
///   downloads a specified version
/// * `generate` creates a build template which conforms to bitcoin's
///   automake build system
#[derive(Debug)]
pub struct SubCommandName;

impl SubCommandName {
    pub const GENERATE: &'static str = "generate";

    pub const BUILD: &'static str = "build";

    pub const AUTH: &'static str = "auth";

    pub const FETCH: &'static str = "fetch";
}

/// Each subcommand has arguments that go with it.
pub struct ArgName;

impl ArgName {
    // Args for SubCommandName::GENERATE
    pub const BITCOIN: &'static str = "bitcoin";

    pub const LITECOIN: &'static str = "litecoin";

    // Args for SubCommandName::BUILD
    pub const STRATEGY: &'static str = "strategy";

    // Args for SubCommandName::AUTH
    pub const TOKEN: &'static str = "token";

    // Args for SubCommandName::FETCH
    pub const LIST_REMOTE: &'static str = "list_remote";

    pub const LIST_LOCAL: &'static str = "list_local";

    pub const LATEST: &'static str = "latest";

    pub const TAG: &'static str = "tag";
}

/// An argument with its texts taken as character sequences.
pub struct ArgumentView {
    pub value: Option<Seq<char>>,
    pub name: Seq<char>,
}

/// Helps distinguish between arguments that have values, and arguments that
/// don't.
#[derive(Debug)]
pub struct Argument {
    pub value: Option<String>,
    pub name: String,
}

impl View for Argument {
    type V = ArgumentView;

    open spec fn view(&self) -> ArgumentView {
        ArgumentView { value: optional_text(self.value), name: self.name@ }
    }
}

impl Clone for Argument {
    fn clone(&self) -> (copy: Self)
        ensures
            copy == *self,
    {
        Argument { value: copy_optional(&self.value), name: self.name.clone() }
    }
}

impl Default for Argument {
    fn default() -> (argument: Self)
        ensures
            argument@ == (ArgumentView { value: None, name: Seq::empty() }),
    {
        Self { value: None, name: String::new() }
    }
}

/// The lines in which an argument is shown.
pub open spec fn argument_text(argument: ArgumentView) -> Seq<char> {
    "Argument Name: "@ + argument.name + "\nValue: "@ + (match argument.value {
        Some(value) => value,
        None => "None"@,
    })
}

impl Argument {
    /// The lines in which the argument is shown.
    pub fn to_text(&self) -> (text: String)
        ensures
            text@ == argument_text(self@),
    {
        let mut text = String::from_str("Argument Name: ");
        text.append(self.name.as_str());
        text.append("\nValue: ");
        match &self.value {
            Some(value) => text.append(value.as_str()),
            None => text.append("None"),
        }
        text
    }
}

/// A command with its texts taken as character sequences.
pub struct ActiveCommandView {
    pub sub_command: Seq<char>,
    pub arg: ArgumentView,
}

/// The subcommand that the user asked for and the argument that goes with it.
#[derive(Debug)]
pub struct ActiveCommand {
    sub_command: String,
    arg: Argument,
}

impl View for ActiveCommand {
    type V = ActiveCommandView;

    closed spec fn view(&self) -> ActiveCommandView {
        ActiveCommandView { sub_command: self.sub_command@, arg: self.arg@ }
    }
}

impl Clone for ActiveCommand {
    fn clone(&self) -> (copy: Self)
        ensures
            copy == *self,
    {
        ActiveCommand { sub_command: self.sub_command.clone(), arg: self.arg.clone() }
    }
}

/// The lines in which a command is shown.
pub open spec fn command_text(command: ActiveCommandView) -> Seq<char> {
    "Subcommand Name: "@ + command.sub_command + "\n"@ + argument_text(command.arg)
}

impl ActiveCommand {
    pub fn new(sub_command: &str, arg: Argument) -> (command: Self)
        ensures
            command@ == (ActiveCommandView { sub_command: sub_command@, arg: arg@ }),
    {
        Self { sub_command: String::from_str(sub_command), arg }
    }

    pub fn sub_command(&self) -> (sub_command: &String)
        ensures
            sub_command@ == self@.sub_command,
    {
        &self.sub_command
    }

    pub fn arg(&self) -> (arg: Argument)
        ensures
            arg@ == self@.arg,
    {
        self.arg.clone()
    }

    /// The lines in which the command is shown.
    pub fn to_text(&self) -> (text: String)
        ensures
            text@ == command_text(self@),
    {
        let mut text = String::from_str("Subcommand Name: ");
        text.append(self.sub_command.as_str());
        text.append("\n");
        let argument = self.arg.to_text();
        text.append(argument.as_str());
        text
    }
}

} // verus!
