//! The commands a key sequence can be bound to.

use vstd::prelude::*;
use crate::action::Action;
use crate::telescope_backend::TelescopeSearch;
use crate::TelescopeWindow;

verus! {

/// Whether `after` and `emitted` are what `command` makes of the host's open
/// overlay `before`: with no overlay open nothing happens, and an open
/// overlay performs the command and keeps its bindings and pending keys.
pub open spec fn executed<S: TelescopeSearch>(
    before: Option<TelescopeWindow<S>>,
    command: Command,
    after: Option<TelescopeWindow<S>>,
    emitted: Option<Action>,
) -> bool {
    match before {
        None => after is None && emitted is None,
        Some(open) => {
            &&& after matches Some(now)
            &&& now.performed(&open, command, emitted)
            &&& now.wf()
            &&& now.keymap == open.keymap
            &&& now.key_map == open.key_map
            &&& now.current_sequence == open.current_sequence
        },
    }
}

/// Whether the host's open overlay, if there is one, is fit to be used.
pub open spec fn usable<S: TelescopeSearch>(popup: Option<TelescopeWindow<S>>) -> bool {
    popup matches Some(open) ==> open.wf()
}

/// Search for a given text, leaving the query as it is.
#[derive(Debug, PartialEq)]
pub struct TelescopeUpdateSearchQuery {
    pub query: String,
}

impl TelescopeUpdateSearchQuery {
    /// The command that searches for `query`.
    pub fn new(query: String) -> (command: Self)
        ensures
            command.query == query,
    {
        Self { query }
    }

    /// Runs the command on the host's open overlay, if there is one.
    pub fn execute<S: TelescopeSearch>(
        &mut self,
        popup: &mut Option<TelescopeWindow<S>>,
    ) -> (emitted: Option<Action>)
        requires
            usable(*old(popup)),
        ensures
            *final(self) == *old(self),
            executed(*old(popup), Command::UpdateSearchQuery(*old(self)), *final(popup), emitted),
    {
        match popup {
            None => None,
            Some(window) => {
                window.update_search_query(self.query.clone());
                None
            },
        }
    }
}

impl Clone for TelescopeUpdateSearchQuery {
    fn clone(&self) -> (copy: Self)
        ensures
            copy == *self,
    {
        Self { query: self.query.clone() }
    }
}

/// Empty the query and search again.
#[derive(Clone, Copy, Debug, PartialEq, Eq, Structural)]
pub struct TelescopeEraseText {}

impl TelescopeEraseText {
    /// The command that empties the query.
    pub fn new() -> (command: Self)
        ensures
            command == (TelescopeEraseText {}),
    {
        Self {}
    }

    /// Runs the command on the host's open overlay, if there is one.
    pub fn execute<S: TelescopeSearch>(
        &mut self,
        popup: &mut Option<TelescopeWindow<S>>,
    ) -> (emitted: Option<Action>)
        requires
            usable(*old(popup)),
        ensures
            *final(self) == *old(self),
            executed(*old(popup), Command::EraseText(*old(self)), *final(popup), emitted),
    {
        match popup {
            None => None,
            Some(window) => {
                window.erase_text();
                None
            },
        }
    }
}

/// Append one character to the query and search again.
#[derive(Clone, Copy, Debug, PartialEq, Eq, Structural)]
pub struct TelescopePushSearchChar {
    pub ch: char,
}

impl TelescopePushSearchChar {
    /// The command that appends `ch` to the query.
    pub fn new(ch: char) -> (command: Self)
        ensures
            command.ch == ch,
    {
        Self { ch }
    }

    /// Runs the command on the host's open overlay, if there is one.
    pub fn execute<S: TelescopeSearch>(
        &mut self,
        popup: &mut Option<TelescopeWindow<S>>,
    ) -> (emitted: Option<Action>)
        requires
            usable(*old(popup)),
        ensures
            *final(self) == *old(self),
            executed(*old(popup), Command::PushSearchChar(*old(self)), *final(popup), emitted),
    {
        match popup {
            None => None,
            Some(window) => {
                window.push_search_char(self.ch);
                None
            },
        }
    }
}

/// Drop the last character of the query and search again.
#[derive(Clone, Copy, Debug, PartialEq, Eq, Structural)]
pub struct TelescopeDropSearchChar {}

impl TelescopeDropSearchChar {
    /// The command that drops the last character of the query.
    pub fn new() -> (command: Self)
        ensures
            command == (TelescopeDropSearchChar {}),
    {
        Self {}
    }

    /// Runs the command on the host's open overlay, if there is one.
    pub fn execute<S: TelescopeSearch>(
        &mut self,
        popup: &mut Option<TelescopeWindow<S>>,
    ) -> (emitted: Option<Action>)
        requires
            usable(*old(popup)),
        ensures
            *final(self) == *old(self),
            executed(*old(popup), Command::DropSearchChar(*old(self)), *final(popup), emitted),
    {
        match popup {
            None => None,
            Some(window) => {
                window.drop_search_char();
                None
            },
        }
    }
}

/// Move the selection to the next result.
#[derive(Clone, Copy, Debug, PartialEq, Eq, Structural)]
pub struct TelescopeNextResult {}

impl TelescopeNextResult {
    /// The command that selects the next result.
    pub fn new() -> (command: Self)
        ensures
            command == (TelescopeNextResult {}),
    {
        Self {}
    }

    /// Runs the command on the host's open overlay, if there is one.
    pub fn execute<S: TelescopeSearch>(
        &mut self,
        popup: &mut Option<TelescopeWindow<S>>,
    ) -> (emitted: Option<Action>)
        requires
            usable(*old(popup)),
        ensures
            *final(self) == *old(self),
            executed(*old(popup), Command::NextResult(*old(self)), *final(popup), emitted),
    {
        match popup {
            None => None,
            Some(window) => {
                window.next_result();
                None
            },
        }
    }
}

/// Move the selection to the previous result.
#[derive(Clone, Copy, Debug, PartialEq, Eq, Structural)]
pub struct TelescopePreviousResult {}

impl TelescopePreviousResult {
    /// The command that selects the previous result.
    pub fn new() -> (command: Self)
        ensures
            command == (TelescopePreviousResult {}),
    {
        Self {}
    }

    /// Runs the command on the host's open overlay, if there is one.
    pub fn execute<S: TelescopeSearch>(
        &mut self,
        popup: &mut Option<TelescopeWindow<S>>,
    ) -> (emitted: Option<Action>)
        requires
            usable(*old(popup)),
        ensures
            *final(self) == *old(self),
            executed(*old(popup), Command::PreviousResult(*old(self)), *final(popup), emitted),
    {
        match popup {
            None => None,
            Some(window) => {
                window.previous_result();
                None
            },
        }
    }
}

/// Turn the selected result into an action for the host.
#[derive(Clone, Copy, Debug, PartialEq, Eq, Structural)]
pub struct TelescopeConfirmResult {}

impl TelescopeConfirmResult {
    /// The command that confirms the selected result.
    pub fn new() -> (command: Self)
        ensures
            command == (TelescopeConfirmResult {}),
    {
        Self {}
    }

    /// Runs the command on the host's open overlay, if there is one.
    pub fn execute<S: TelescopeSearch>(
        &mut self,
        popup: &mut Option<TelescopeWindow<S>>,
    ) -> (emitted: Option<Action>)
        requires
            usable(*old(popup)),
        ensures
            *final(self) == *old(self),
            executed(*old(popup), Command::ConfirmResult(*old(self)), *final(popup), emitted),
    {
        match popup {
            None => None,
            Some(window) => {
                window.confirm_result()
            },
        }
    }
}

/// Close the overlay.
#[derive(Clone, Copy, Debug, PartialEq, Eq, Structural)]
pub struct TelescopeQuit {}

impl TelescopeQuit {
    /// The command that closes the overlay.
    pub fn new() -> (command: Self)
        ensures
            command == (TelescopeQuit {}),
    {
        Self {}
    }

    /// Runs the command on the host's open overlay, if there is one.
    pub fn execute<S: TelescopeSearch>(
        &mut self,
        popup: &mut Option<TelescopeWindow<S>>,
    ) -> (emitted: Option<Action>)
        requires
            usable(*old(popup)),
        ensures
            *final(self) == *old(self),
            executed(*old(popup), Command::Quit(*old(self)), *final(popup), emitted),
    {
        match popup {
            None => None,
            Some(window) => {
                window.quit();
                None
            },
        }
    }
}

/// Any one of the overlay's commands.
#[derive(Debug, PartialEq)]
pub enum Command {
    UpdateSearchQuery(TelescopeUpdateSearchQuery),
    EraseText(TelescopeEraseText),
    PushSearchChar(TelescopePushSearchChar),
    DropSearchChar(TelescopeDropSearchChar),
    NextResult(TelescopeNextResult),
    PreviousResult(TelescopePreviousResult),
    ConfirmResult(TelescopeConfirmResult),
    Quit(TelescopeQuit),
}

impl Command {
    /// Runs the command on the host's open overlay, if there is one.
    pub fn execute<S: TelescopeSearch>(
        &mut self,
        popup: &mut Option<TelescopeWindow<S>>,
    ) -> (emitted: Option<Action>)
        requires
            usable(*old(popup)),
        ensures
            *final(self) == *old(self),
            executed(*old(popup), *old(self), *final(popup), emitted),
    {
        match self {
            Command::UpdateSearchQuery(command) => command.execute(popup),
            Command::EraseText(command) => command.execute(popup),
            Command::PushSearchChar(command) => command.execute(popup),
            Command::DropSearchChar(command) => command.execute(popup),
            Command::NextResult(command) => command.execute(popup),
            Command::PreviousResult(command) => command.execute(popup),
            Command::ConfirmResult(command) => command.execute(popup),
            Command::Quit(command) => command.execute(popup),
        }
    }
}

impl Command {
    /// Whether two commands are the same command with the same text or
    /// character.
    pub open spec fn alike(self, other: Command) -> bool {
        match (self, other) {
            (Command::UpdateSearchQuery(left), Command::UpdateSearchQuery(right)) => left.query@
                == right.query@,
            (Command::EraseText(_), Command::EraseText(_)) => true,
            (Command::PushSearchChar(left), Command::PushSearchChar(right)) => left.ch == right.ch,
            (Command::DropSearchChar(_), Command::DropSearchChar(_)) => true,
            (Command::NextResult(_), Command::NextResult(_)) => true,
            (Command::PreviousResult(_), Command::PreviousResult(_)) => true,
            (Command::ConfirmResult(_), Command::ConfirmResult(_)) => true,
            (Command::Quit(_), Command::Quit(_)) => true,
            _ => false,
        }
    }

    /// Whether two commands are the same command with the same text or
    /// character.
    pub fn same_as(&self, other: &Command) -> (same: bool)
        ensures
            same == self.alike(*other),
    {
        match (self, other) {
            (Command::UpdateSearchQuery(left), Command::UpdateSearchQuery(right)) => left.query
                == right.query,
            (Command::EraseText(_), Command::EraseText(_)) => true,
            (Command::PushSearchChar(left), Command::PushSearchChar(right)) => left.ch == right.ch,
            (Command::DropSearchChar(_), Command::DropSearchChar(_)) => true,
            (Command::NextResult(_), Command::NextResult(_)) => true,
            (Command::PreviousResult(_), Command::PreviousResult(_)) => true,
            (Command::ConfirmResult(_), Command::ConfirmResult(_)) => true,
            (Command::Quit(_), Command::Quit(_)) => true,
            _ => false,
        }
    }
}

impl Clone for Command {
    fn clone(&self) -> (copy: Self)
        ensures
            copy == *self,
    {
        match self {
            Command::UpdateSearchQuery(c) => Command::UpdateSearchQuery(c.clone()),
            Command::EraseText(c) => Command::EraseText(*c),
            Command::PushSearchChar(c) => Command::PushSearchChar(*c),
            Command::DropSearchChar(c) => Command::DropSearchChar(*c),
            Command::NextResult(c) => Command::NextResult(*c),
            Command::PreviousResult(c) => Command::PreviousResult(*c),
            Command::ConfirmResult(c) => Command::ConfirmResult(*c),
            Command::Quit(c) => Command::Quit(*c),
        }
    }
}

} // verus!
