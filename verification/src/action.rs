//! The actions that the overlay hands to its host.

use vstd::prelude::*;
use crate::plugin_action::PluginAction;

verus! {

/// An effect on the host application.
#[derive(Debug, PartialEq)]
pub enum AppAction {
    /// Reveal the given path.
    ShowInFolder(String),
    /// Show the given message to the user.
    DisplayMessage(String),
}

/// A request addressed to the open overlay.
#[derive(Debug, PartialEq)]
pub enum PopupAction {
    UpdateSearchQuery(String),
}

/// A call back into the plugin from the host.
#[derive(Clone, Copy, Debug, PartialEq, Eq, Structural)]
pub enum CustomAction {
    /// Open the overlay that searches files below the current directory.
    OpenSfs,
}

/// What the overlay and its plugin hand to the host.
#[derive(Debug, PartialEq)]
pub enum Action {
    AppAct(AppAction),
    PluginAct(PluginAction),
    PopupAct(PopupAction),
    CustomAct(CustomAction),
    /// An action of the host's own that a key is bound to. The overlay hands
    /// it back as it is; the number is the host's name for it.
    HostAct(usize),
}

impl Action {
    /// Whether two actions are of the same kind and carry the same text,
    /// command or number.
    pub open spec fn alike(self, other: Action) -> bool {
        match (self, other) {
            (
                Action::AppAct(AppAction::ShowInFolder(left)),
                Action::AppAct(AppAction::ShowInFolder(right)),
            ) => left@ == right@,
            (
                Action::AppAct(AppAction::DisplayMessage(left)),
                Action::AppAct(AppAction::DisplayMessage(right)),
            ) => left@ == right@,
            (Action::PluginAct(left), Action::PluginAct(right)) => left.command.alike(
                right.command,
            ),
            (
                Action::PopupAct(PopupAction::UpdateSearchQuery(left)),
                Action::PopupAct(PopupAction::UpdateSearchQuery(right)),
            ) => left@ == right@,
            (Action::CustomAct(left), Action::CustomAct(right)) => left == right,
            (Action::HostAct(left), Action::HostAct(right)) => left == right,
            _ => false,
        }
    }

    /// Whether two actions are of the same kind and carry the same text,
    /// command or number.
    pub fn same_as(&self, other: &Action) -> (same: bool)
        ensures
            same == self.alike(*other),
    {
        match (self, other) {
            (
                Action::AppAct(AppAction::ShowInFolder(left)),
                Action::AppAct(AppAction::ShowInFolder(right)),
            ) => *left == *right,
            (
                Action::AppAct(AppAction::DisplayMessage(left)),
                Action::AppAct(AppAction::DisplayMessage(right)),
            ) => *left == *right,
            (Action::PluginAct(left), Action::PluginAct(right)) => left.command.same_as(
                &right.command,
            ),
            (
                Action::PopupAct(PopupAction::UpdateSearchQuery(left)),
                Action::PopupAct(PopupAction::UpdateSearchQuery(right)),
            ) => *left == *right,
            (Action::CustomAct(left), Action::CustomAct(right)) => *left == *right,
            (Action::HostAct(left), Action::HostAct(right)) => *left == *right,
            _ => false,
        }
    }
}

/// Being alike goes both ways.
pub proof fn lemma_alike_goes_both_ways(left: Action, right: Action)
    ensures
        left.alike(right) == right.alike(left),
{
}

impl Clone for AppAction {
    fn clone(&self) -> (copy: Self)
        ensures
            copy == *self,
    {
        match self {
            AppAction::ShowInFolder(path) => AppAction::ShowInFolder(path.clone()),
            AppAction::DisplayMessage(message) => AppAction::DisplayMessage(message.clone()),
        }
    }
}

impl Clone for PopupAction {
    fn clone(&self) -> (copy: Self)
        ensures
            copy == *self,
    {
        match self {
            PopupAction::UpdateSearchQuery(query) => PopupAction::UpdateSearchQuery(query.clone()),
        }
    }
}

impl Clone for Action {
    fn clone(&self) -> (copy: Self)
        ensures
            copy == *self,
    {
        match self {
            Action::AppAct(action) => Action::AppAct(action.clone()),
            Action::PluginAct(action) => Action::PluginAct(action.clone()),
            Action::PopupAct(action) => Action::PopupAct(action.clone()),
            Action::CustomAct(action) => Action::CustomAct(*action),
            Action::HostAct(number) => Action::HostAct(*number),
        }
    }
}

} // verus!
