//! An action that carries one of the overlay's commands.

use vstd::prelude::*;
use crate::telescope_commands::Command;

verus! {

/// A command wrapped for the host's action pipeline.
#[derive(Debug, PartialEq)]
pub struct PluginAction {
    pub command: Command,
}

impl PluginAction {
    /// Wraps `command`.
    pub fn new(command: Command) -> (action: PluginAction)
        ensures
            action.command == command,
    {
        PluginAction { command }
    }

    /// A copy of the command that the action carries.
    pub fn get_command(&self) -> (command: Command)
        ensures
            command == self.command,
    {
        self.command.clone()
    }
}

impl Clone for PluginAction {
    fn clone(&self) -> (copy: Self)
        ensures
            copy == *self,
    {
        PluginAction { command: self.command.clone() }
    }
}

} // verus!
