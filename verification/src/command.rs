//! The commands a user can give, and what each of them needs.

use crate::error::{InputField, MappingError};
use crate::registry::{answer_text, parse_index};
use crate::text::bounded_numeral;
use vstd::prelude::*;

verus! {

/// One command. The three that work on a single mapping carry the index
/// given with them, if one was given.
#[derive(Clone, Copy, Debug, PartialEq, Eq, Structural)]
pub enum Command {
    /// Ask the user for a new mapping and append it.
    Add,
    /// Delete a mapping from the registry.
    Remove(Option<usize>),
    /// Apply a mapping on the gateway.
    Enable(Option<usize>),
    /// Take a mapping off the gateway.
    Disable(Option<usize>),
    /// Show the registry.
    List,
    /// Show how the program is used.
    Help,
}

impl Command {
    /// Whether the command, given for a registry of `registered` mappings,
    /// has any use for a gateway.
    ///
    /// Enabling and disabling always do. A listing shows the gateway's
    /// address on each line, so it needs one where there is a line to show;
    /// removing shows a listing where it has to ask for the index. Adding,
    /// removing by a given index and showing the usage never do: they work
    /// whether or not a gateway can be reached.
    pub open spec fn gateway_needed(self, registered: nat) -> bool {
        match self {
            Command::Add => false,
            Command::Remove(Some(_)) => false,
            Command::Remove(None) => registered > 0,
            Command::Enable(_) => true,
            Command::Disable(_) => true,
            Command::List => registered > 0,
            Command::Help => false,
        }
    }

    /// Says whether a gateway has to be found before the command is run.
    pub fn needs_gateway(&self, registered: usize) -> (needed: bool)
        ensures
            needed == self.gateway_needed(registered as nat),
    {
        match self {
            Command::Add => false,
            Command::Remove(Some(_)) => false,
            Command::Remove(None) => registered > 0,
            Command::Enable(_) => true,
            Command::Disable(_) => true,
            Command::List => registered > 0,
            Command::Help => false,
        }
    }
}

/// The index that comes with a command on the command line: none where no
/// value was given, else the number that the value denotes.
pub open spec fn index_argument(value: Option<Seq<char>>) -> Result<Option<usize>, MappingError> {
    match value {
        None => Ok(None),
        Some(text) => match bounded_numeral(text, usize::MAX as nat) {
            Some(i) => Ok(Some(i as usize)),
            None => Err(MappingError::InputParse(InputField::Index)),
        },
    }
}

/// Reads the value given with a command as an index. The index is not held
/// against the registry here; that happens when the command is run.
pub fn parse_index_argument(value: Option<&str>) -> (r: Result<Option<usize>, MappingError>)
    ensures
        r == index_argument(answer_text(value)),
{
    match value {
        None => Ok(None),
        Some(text) => match parse_index(text) {
            Ok(i) => Ok(Some(i)),
            Err(e) => Err(e),
        },
    }
}

/// Whether the usage is asked for anywhere among the commands. If so it is
/// shown and nothing else is done.
pub fn help_requested(commands: &Vec<Command>) -> (found: bool)
    ensures
        found == commands@.contains(Command::Help),
{
    let mut i: usize = 0;
    while i < commands.len()
        invariant
            i <= commands.len(),
            forall|j: int| 0 <= j < i ==> commands@[j] != Command::Help,
        decreases commands.len() - i,
    {
        if commands[i] == Command::Help {
            return true;
        }
        i = i + 1;
    }
    false
}

} // verus!
