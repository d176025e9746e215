//! The named sub-command dispatcher.
//!
//! A fixed set of workspace sub-commands is recognized; each is currently an
//! explicit placeholder. Running a recognized command fails with
//! `SubCommandNotImplemented`, so callers can tell a pending feature apart
//! from an unknown name, which fails with `UnsupportedSubCommand`. Completion
//! of a recognized command returns an empty list, not an error.

use vstd::prelude::*;
use vstd::string::StringExecFns;
use crate::launch::str_eq;

verus! {

/// A named sub-command invocation, as handed over by the hosting editor.
pub struct SlashCommand {
    pub name: String,
}

/// Output of a successfully run sub-command. No sub-command produces one
/// yet; the type states the shape of the eventual result.
#[derive(Debug)]
pub struct SlashCommandOutput {
    pub text: String,
}

/// One completion offered for a sub-command argument.
pub struct SlashCommandCompletion {
    pub label: String,
    pub new_text: String,
    pub run_command: bool,
}

/// A workspace, as far as the dispatcher reads it: its root path.
pub struct Workspace {
    pub root_path: String,
}

/// Why a sub-command call failed.
#[derive(Debug)]
pub enum CommandError {
    /// The name is not one of the recognized sub-commands.
    UnsupportedSubCommand { name: String },
    /// The name is recognized, but its behavior is still a placeholder.
    SubCommandNotImplemented { name: String },
}

/// Mathematical model of a [`CommandError`].
#[verifier::ext_equal]
pub enum CommandErrorModel {
    UnsupportedSubCommand { name: Seq<char> },
    SubCommandNotImplemented { name: Seq<char> },
}

impl View for CommandError {
    type V = CommandErrorModel;

    open spec fn view(&self) -> CommandErrorModel {
        match self {
            CommandError::UnsupportedSubCommand { name } => CommandErrorModel::UnsupportedSubCommand {
                name: name@,
            },
            CommandError::SubCommandNotImplemented { name } => CommandErrorModel::SubCommandNotImplemented {
                name: name@,
            },
        }
    }
}

/// The recognized sub-command names.
pub open spec fn spec_recognized_command(name: Seq<char>) -> bool {
    ||| name == "laravel_view"@
    ||| name == "laravel_route"@
    ||| name == "laravel_artisan"@
}

/// The error a `run` call reports for a given name: recognized names are
/// placeholders, everything else is unsupported.
pub open spec fn spec_run_error(name: Seq<char>) -> CommandErrorModel {
    if spec_recognized_command(name) {
        CommandErrorModel::SubCommandNotImplemented { name }
    } else {
        CommandErrorModel::UnsupportedSubCommand { name }
    }
}

/// The human-readable text of each error.
pub open spec fn spec_describe_command_error(e: CommandErrorModel) -> Seq<char> {
    match e {
        CommandErrorModel::UnsupportedSubCommand { name } => "Unsupported slash command: "@ + name,
        CommandErrorModel::SubCommandNotImplemented { name } => {
            if name == "laravel_view"@ {
                "View search is not implemented yet"@
            } else if name == "laravel_route"@ {
                "Route search is not implemented yet"@
            } else {
                "Artisan helpers are not implemented yet"@
            }
        },
    }
}

impl CommandError {
    /// A human-readable message sufficient to diagnose the cause.
    pub fn describe(&self) -> (r: String)
        ensures
            r@ == spec_describe_command_error(self@),
    {
        match self {
            CommandError::UnsupportedSubCommand { name } => {
                "Unsupported slash command: ".to_owned().concat(name.as_str())
            },
            CommandError::SubCommandNotImplemented { name } => {
                if str_eq(name.as_str(), "laravel_view") {
                    "View search is not implemented yet".to_owned()
                } else if str_eq(name.as_str(), "laravel_route") {
                    "Route search is not implemented yet".to_owned()
                } else {
                    "Artisan helpers are not implemented yet".to_owned()
                }
            },
        }
    }
}

/// Run a named sub-command. Every recognized command is currently an
/// explicit placeholder, so every call fails: with
/// `SubCommandNotImplemented` for a recognized name, and with
/// `UnsupportedSubCommand` for any other.
pub fn run(command: &SlashCommand, _args: &Vec<String>, _workspace: Option<&Workspace>) -> (r:
    Result<SlashCommandOutput, CommandError>)
    ensures
        r matches Err(e) && e@ == spec_run_error(command.name@),
{
    if str_eq(command.name.as_str(), "laravel_view") {
        find_view(_args, _workspace)
    } else if str_eq(command.name.as_str(), "laravel_route") {
        find_route(_args, _workspace)
    } else if str_eq(command.name.as_str(), "laravel_artisan") {
        run_artisan(_args, _workspace)
    } else {
        Err(CommandError::UnsupportedSubCommand { name: command.name.clone() })
    }
}

/// Complete an argument of a named sub-command. Recognized commands offer no
/// completions yet — an empty list, not an error; unrecognized names fail
/// with `UnsupportedSubCommand`.
pub fn complete(command: &SlashCommand, _args: &Vec<String>) -> (r: Result<
    Vec<SlashCommandCompletion>,
    CommandError,
>)
    ensures
        spec_recognized_command(command.name@) ==> (r matches Ok(v) && v@.len() == 0),
        !spec_recognized_command(command.name@) ==> (r matches Err(e) && e@
            == (CommandErrorModel::UnsupportedSubCommand { name: command.name@ })),
{
    if str_eq(command.name.as_str(), "laravel_view") {
        complete_views(_args)
    } else if str_eq(command.name.as_str(), "laravel_route") {
        complete_routes(_args)
    } else if str_eq(command.name.as_str(), "laravel_artisan") {
        complete_artisan(_args)
    } else {
        Err(CommandError::UnsupportedSubCommand { name: command.name.clone() })
    }
}

fn find_view(_args: &Vec<String>, _workspace: Option<&Workspace>) -> (r: Result<
    SlashCommandOutput,
    CommandError,
>)
    ensures
        r matches Err(e) && e@ == (CommandErrorModel::SubCommandNotImplemented {
            name: "laravel_view"@,
        }),
{
    Err(CommandError::SubCommandNotImplemented { name: "laravel_view".to_owned() })
}

fn find_route(_args: &Vec<String>, _workspace: Option<&Workspace>) -> (r: Result<
    SlashCommandOutput,
    CommandError,
>)
    ensures
        r matches Err(e) && e@ == (CommandErrorModel::SubCommandNotImplemented {
            name: "laravel_route"@,
        }),
{
    Err(CommandError::SubCommandNotImplemented { name: "laravel_route".to_owned() })
}

fn run_artisan(_args: &Vec<String>, _workspace: Option<&Workspace>) -> (r: Result<
    SlashCommandOutput,
    CommandError,
>)
    ensures
        r matches Err(e) && e@ == (CommandErrorModel::SubCommandNotImplemented {
            name: "laravel_artisan"@,
        }),
{
    Err(CommandError::SubCommandNotImplemented { name: "laravel_artisan".to_owned() })
}

fn complete_views(_args: &Vec<String>) -> (r: Result<Vec<SlashCommandCompletion>, CommandError>)
    ensures
        r matches Ok(v) && v@.len() == 0,
{
    Ok(Vec::new())
}

fn complete_routes(_args: &Vec<String>) -> (r: Result<Vec<SlashCommandCompletion>, CommandError>)
    ensures
        r matches Ok(v) && v@.len() == 0,
{
    Ok(Vec::new())
}

fn complete_artisan(_args: &Vec<String>) -> (r: Result<Vec<SlashCommandCompletion>, CommandError>)
    ensures
        r matches Ok(v) && v@.len() == 0,
{
    Ok(Vec::new())
}

} // verus!
