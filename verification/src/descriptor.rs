//! The structured representation of "what to run".
//!
//! A command is a program name and a literal argument vector — never a
//! free-form command line.  Nothing here is ever handed to a shell, so the
//! argument boundary itself cannot be abused for injection.

use vstd::prelude::*;

use crate::engine::ErrorKind;

verus! {

/// A program name, its ordered argument vector, and a verbosity flag.
/// Invariant: the program name is non-empty; the argument vector may be
/// empty.  A descriptor is created once from user input, consumed once by
/// the command service, and never mutated in between.
#[derive(Clone, PartialEq, Eq, Debug)]
pub struct CommandDescriptor {
    pub program: String,
    pub arguments: Vec<String>,
    pub verbose: bool,
}

impl CommandDescriptor {
    /// The descriptor names a program that could be spawned.
    pub open spec fn valid(&self) -> bool {
        self.program@.len() > 0
    }
}

/// A raw command line is acceptable when it has a non-empty program name in
/// front.
pub open spec fn buildable(command: Seq<String>) -> bool {
    command.len() > 0 && command[0]@.len() > 0
}

/// Builds a descriptor from the raw command vector a user supplied: the
/// first element is the program, the rest are its arguments.  Purely a data
/// transformation; rejects a command with no program name to spawn, so an
/// invalid request dies here, before any process could be created.
pub fn build(command: Vec<String>, verbose: bool) -> (r: Result<CommandDescriptor, ErrorKind>)
    ensures
        buildable(command@) ==> (r matches Ok(d) && {
            &&& d.program == command@[0]
            &&& d.arguments@ == command@.drop_first()
            &&& d.verbose == verbose
            &&& d.valid()
        }),
        !buildable(command@) ==> r == Err::<CommandDescriptor, ErrorKind>(ErrorKind::SpawnFailed),
{
    let mut command = command;
    let ghost raw = command@;
    if command.len() == 0 {
        return Err(ErrorKind::SpawnFailed);
    }
    let program = command.remove(0);
    if program.as_str().is_empty() {
        return Err(ErrorKind::SpawnFailed);
    }
    assert(command@ =~= raw.drop_first());
    Ok(CommandDescriptor { program, arguments: command, verbose })
}

} // verus!
