//! The command line of the database tool: `pg migrate` or `pg run`.

use vstd::prelude::*;
use crate::text::str_equal;

verus! {

/// What the database tool is asked to do.
#[derive(Clone, Copy, Debug, PartialEq, Eq, Structural)]
pub enum Command {
    /// Run the migrations against the database named in `.env`.
    Migrate,
    /// Start a database, record its port, and wait for a signal to stop it.
    Run,
}

/// The error for a command line that names no known command.
#[derive(Clone, Copy, Debug, PartialEq, Eq, Structural)]
pub struct UsageError;

impl UsageError {
    /// The message shown for the error.
    pub fn message(&self) -> (text: &'static str)
        ensures
            text@ == "Usage: pg [migrate|run]"@,
    {
        "Usage: pg [migrate|run]"
    }
}

/// The command that the first argument names.
pub open spec fn command_for(argument: Option<Seq<char>>) -> Result<Command, UsageError> {
    match argument {
        Some(a) => if a == "migrate"@ {
            Ok(Command::Migrate)
        } else if a == "run"@ {
            Ok(Command::Run)
        } else {
            Err(UsageError)
        },
        None => Err(UsageError),
    }
}

impl Command {
    /// Reads the command from the first argument after the program's name.
    pub fn parse(argument: Option<String>) -> (command: Result<Command, UsageError>)
        ensures
            command == command_for(
                match argument {
                    Some(a) => Some(a@),
                    None => None,
                },
            ),
            command == Ok::<Command, UsageError>(Command::Migrate) <==> (argument is Some
                && argument.unwrap()@ == "migrate"@),
            command == Ok::<Command, UsageError>(Command::Run) <==> (argument is Some
                && argument.unwrap()@ == "run"@),
            command == Err::<Command, UsageError>(UsageError) <==> !(argument is Some && (
            argument.unwrap()@ == "migrate"@ || argument.unwrap()@ == "run"@)),
    {
        proof {
            let ghost read: Option<Seq<char>> = if argument is Some {
                Some(argument.unwrap()@)
            } else {
                None
            };
            law_only_two_commands(read);
        }
        match argument {
            Some(a) => {
                if str_equal(a.as_str(), "migrate") {
                    Ok(Command::Migrate)
                } else if str_equal(a.as_str(), "run") {
                    Ok(Command::Run)
                } else {
                    Err(UsageError)
                }
            },
            None => Err(UsageError),
        }
    }
}

/// The tool knows exactly two commands: the argument `migrate` is read as
/// `Migrate`, the argument `run` as `Run`, and every other argument, or none,
/// is a usage error.
pub proof fn law_only_two_commands(argument: Option<Seq<char>>)
    ensures
        command_for(argument) == Ok::<Command, UsageError>(Command::Migrate) <==> argument
            == Some("migrate"@),
        command_for(argument) == Ok::<Command, UsageError>(Command::Run) <==> argument == Some(
            "run"@),
        command_for(argument) == Err::<Command, UsageError>(UsageError) <==> (argument != Some(
            "migrate"@) && argument != Some("run"@)),
{
    reveal_strlit("migrate");
    reveal_strlit("run");
    assert("migrate"@.len() == 7);
    assert("run"@.len() == 3);
    assert("migrate"@ != "run"@);
}

} // verus!
