//! Command dispatch: a single-shot classification of the command line.
//!
//! The first argument after the program name selects the action. The names
//! `ls` and `version` are reserved and always win: a boilerplate whose access
//! name equals one of them is permanently unreachable, by design.
use vstd::prelude::*;

verus! {

broadcast use vstd::string::group_string_axioms;

/// What a Boiler invocation was asked to do.
#[derive(Debug, PartialEq, Eq)]
pub enum Command {
    /// Print every record's access name and display label.
    List,
    /// Print the build version string.
    Version,
    /// Materialize every record matching the given access name.
    Boil(String),
}

/// Classify the raw argument vector (program name included at position 0).
///
/// No argument, or the reserved name `ls`, lists the records; the reserved
/// name `version` prints the version; anything else is taken as an access
/// name. Arguments past the first are ignored.
pub fn dispatch(args: &Vec<String>) -> (c: Command)
    ensures
        args@.len() <= 1 ==> c == Command::List,
        args@.len() > 1 && args@[1]@ == "ls"@ ==> c == Command::List,
        args@.len() > 1 && args@[1]@ == "version"@ ==> c == Command::Version,
        args@.len() > 1 && args@[1]@ != "ls"@ && args@[1]@ != "version"@ ==> c == Command::Boil(
            args@[1],
        ),
{
    proof {
        reveal_strlit("ls");
        reveal_strlit("version");
        assert("ls"@.len() == 2);
        assert("version"@.len() == 7);
    }
    if args.len() > 1 {
        let arg = &args[1];
        if *arg == String::from_str("ls") {
            Command::List
        } else if *arg == String::from_str("version") {
            Command::Version
        } else {
            Command::Boil(arg.clone())
        }
    } else {
        Command::List
    }
}

/// The version banner. It depends on nothing: not on the configuration, not
/// on the arguments.
pub fn boiler_version() -> (s: String)
    ensures
        s@ == "Boiler v0.1.0"@,
{
    String::from_str("Boiler v0.1.0")
}

/// The two lines reported when an access name matches no record. This is a
/// user-input error, not a fatal one: the process still exits successfully.
pub fn boiler_command_not_found() -> (lines: Vec<String>)
    ensures
        lines@.len() == 2,
        lines@[0]@ == "Boiler: No such command!"@,
        lines@[1]@ == "Boiler: Try 'boiler ls' for available options"@,
{
    let mut lines: Vec<String> = Vec::new();
    lines.push(String::from_str("Boiler: No such command!"));
    lines.push(String::from_str("Boiler: Try 'boiler ls' for available options"));
    lines
}

} // verus!
