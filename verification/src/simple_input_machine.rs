//! The overlay's key-sequence matcher: one trie per mode, the default
//! bindings, and the fallback for keys that no sequence claims. The matcher
//! looks keys up in their normal form; the fallback takes a key as it was
//! pressed.

use vstd::prelude::*;
use crate::action::Action;
use crate::key_event::{
    control_only, no_modifiers, normal_keys, pressed, KeyCode, KeyEvent, KeyModifiers,
};
use crate::key_map::{
    first_match, lemma_first_match, lemma_first_match_bounds, KeyMapNode, KeyProcessingResult,
};
use crate::mode::Mode;
use crate::plugin_action::PluginAction;
use crate::telescope_commands::{
    Command, TelescopeConfirmResult, TelescopeDropSearchChar, TelescopeNextResult,
    TelescopePreviousResult, TelescopePushSearchChar, TelescopeQuit,
};

verus! {

/// The action that carries `command`.
pub open spec fn plugin_action(command: Command) -> Action {
    Action::PluginAct(PluginAction { command })
}

/// The command that the default bindings give to a single key, if any.
pub open spec fn default_command(key: KeyEvent) -> Option<Command> {
    let plain = no_modifiers();
    let control = control_only();
    if key == pressed(KeyCode::Esc, plain) {
        Some(Command::Quit(TelescopeQuit {  }))
    } else if key == pressed(KeyCode::Char('n'), control) {
        Some(Command::NextResult(TelescopeNextResult {  }))
    } else if key == pressed(KeyCode::Char('p'), control) {
        Some(Command::PreviousResult(TelescopePreviousResult {  }))
    } else if key == pressed(KeyCode::Backspace, plain) {
        Some(Command::DropSearchChar(TelescopeDropSearchChar {  }))
    } else if key == pressed(KeyCode::Enter, plain) {
        Some(Command::ConfirmResult(TelescopeConfirmResult {  }))
    } else {
        None
    }
}

/// Whether `keymap` holds the default bindings and nothing else: its only
/// paths are the root and the five single keys, each bound to its command.
pub open spec fn is_default_key_map(keymap: KeyMapNode<Action>) -> bool {
    &&& forall|path: Seq<KeyEvent>| #[trigger]
        keymap.has(path) <==> path.len() == 0 || (path.len() == 1 && default_command(path[0])
            is Some)
    &&& forall|path: Seq<KeyEvent>| #[trigger]
        keymap.bound(path) == if path.len() == 1 && default_command(path[0]) is Some {
            Some(plugin_action(default_command(path[0])->0))
        } else {
            None
        }
}

/// What a key that no sequence claims falls back to: a printed character is
/// inserted into the query, any other key does nothing.
pub open spec fn fallback_action(key: KeyEvent) -> Option<Action> {
    match key.code {
        KeyCode::Char(ch) => Some(
            plugin_action(Command::PushSearchChar(TelescopePushSearchChar { ch })),
        ),
        _ => None,
    }
}

/// The overlay's own matcher, with one trie per mode.
#[derive(Debug, PartialEq)]
pub struct TelescopeInputMachine {
    /// One trie per mode; the first entry for a mode is the one in use.
    pub keymap_nodes: Vec<(Mode, KeyMapNode<Action>)>,
}

impl Clone for TelescopeInputMachine {
    /// A machine with a copy of the trie of each mode.
    fn clone(&self) -> (copy: Self)
        ensures
            forall|mode: Mode|
                match (self.keymap(mode), #[trigger] copy.keymap(mode)) {
                    (Some(trie), Some(copied)) => trie.copied_as(copied),
                    (None, None) => true,
                    _ => false,
                },
    {
        let mut keymap_nodes: Vec<(Mode, KeyMapNode<Action>)> = Vec::new();
        let mut i: usize = 0;
        while i < self.keymap_nodes.len()
            invariant
                i <= self.keymap_nodes@.len(),
                keymap_nodes@.len() == i,
                forall|j: int|
                    0 <= j < i ==> (#[trigger] keymap_nodes@[j]).0 == self.keymap_nodes@[j].0
                        && self.keymap_nodes@[j].1.copied_as(keymap_nodes@[j].1),
            decreases self.keymap_nodes@.len() - i,
        {
            let entry = &self.keymap_nodes[i];
            keymap_nodes.push((entry.0, entry.1.clone()));
            i += 1;
        }
        let copy = TelescopeInputMachine { keymap_nodes };
        proof {
            assert forall|mode: Mode|
                match (self.keymap(mode), #[trigger] copy.keymap(mode)) {
                    (Some(trie), Some(copied)) => trie.copied_as(copied),
                    (None, None) => true,
                    _ => false,
                } by {
                lemma_first_match_bounds(self.keymap_nodes@, mode);
                let m = first_match(self.keymap_nodes@, mode);
                assert forall|j: int| 0 <= j < m implies (#[trigger] copy.keymap_nodes@[j]).0
                    != mode by {
                    assert(self.keymap_nodes@[j].0 != mode);
                }
                lemma_first_match(copy.keymap_nodes@, mode, m);
            }
        }
        copy
    }
}

impl TelescopeInputMachine {
    /// The trie in use for `mode`, if the machine has one.
    pub open spec fn keymap(&self, mode: Mode) -> Option<KeyMapNode<Action>> {
        let i = first_match(self.keymap_nodes@, mode);
        if i < self.keymap_nodes@.len() {
            Some(self.keymap_nodes@[i].1)
        } else {
            None
        }
    }

    /// A machine with the default bindings in normal mode and no other mode.
    pub fn new() -> (machine: Self)
        ensures
            machine.keymap(Mode::Normal) is Some,
            is_default_key_map(machine.keymap(Mode::Normal)->0),
            forall|mode: Mode| mode != Mode::Normal ==> machine.keymap(mode) is None,
    {
        let mut keymap_nodes = Vec::new();
        keymap_nodes.push((Mode::Normal, default_key_map()));
        let machine = TelescopeInputMachine { keymap_nodes };
        proof {
            assert forall|mode: Mode| mode != Mode::Normal implies machine.keymap(mode) is None by {
                lemma_first_match(machine.keymap_nodes@, mode, 1);
            }
        }
        machine
    }

    /// Feeds one key to the trie of `mode`. The mode must have a trie.
    pub fn process_keys(
        &mut self,
        mode: &Mode,
        current_sequence: &mut Vec<KeyEvent>,
        input_key: KeyEvent,
    ) -> (result: KeyProcessingResult<Action>)
        requires
            old(self).keymap(*mode) is Some,
        ensures
            *final(self) == *old(self),
            result == old(self).keymap(*mode)->0.resolve(
                normal_keys(old(current_sequence)@.push(input_key)),
            ),
            final(current_sequence)@ == if result is Incomplete {
                old(current_sequence)@.push(input_key)
            } else {
                Seq::<KeyEvent>::empty()
            },
    {
        let mut i: usize = 0;
        while i < self.keymap_nodes.len() && !(self.keymap_nodes[i].0 == *mode)
            invariant
                i <= self.keymap_nodes@.len(),
                forall|j: int| 0 <= j < i ==> (#[trigger] self.keymap_nodes@[j]).0 != *mode,
            decreases self.keymap_nodes@.len() - i,
        {
            i += 1;
        }
        proof {
            lemma_first_match(self.keymap_nodes@, *mode, i as int);
        }
        process_telescope_keys(&self.keymap_nodes[i].1, current_sequence, input_key)
    }

    /// The fallback for a key that ended in `Invalid`: a printed character is
    /// inserted into the query and any other key does nothing, whatever the
    /// mode and the bindings are.
    pub fn get_default_action(&self, mode: &Mode, last_key: KeyEvent) -> (action: Option<Action>)
        ensures
            action == fallback_action(last_key),
    {
        match last_key.code {
            KeyCode::Char(ch) => Some(
                Action::PluginAct(
                    PluginAction::new(Command::PushSearchChar(TelescopePushSearchChar::new(ch))),
                ),
            ),
            _ => None,
        }
    }
}

/// Appends `input_key` to the pending sequence and looks the result up in
/// `keymap`, its keys taken in their normal form. A bound sequence completes
/// and an unknown one is invalid; both clear the pending sequence. The start
/// of a longer sequence is kept.
pub fn process_telescope_keys(
    keymap: &KeyMapNode<Action>,
    current_sequence: &mut Vec<KeyEvent>,
    input_key: KeyEvent,
) -> (result: KeyProcessingResult<Action>)
    ensures
        result == keymap.resolve(normal_keys(old(current_sequence)@.push(input_key))),
        final(current_sequence)@ == if result is Incomplete {
            old(current_sequence)@.push(input_key)
        } else {
            Seq::<KeyEvent>::empty()
        },
{
    current_sequence.push(input_key);
    match keymap.get_node(current_sequence) {
        Some(node) => match &node.action {
            None => KeyProcessingResult::Incomplete,
            Some(action) => {
                let action = action.clone();
                current_sequence.clear();
                KeyProcessingResult::Complete(action)
            },
        },
        None => {
            current_sequence.clear();
            KeyProcessingResult::Invalid
        },
    }
}

/// The trie of the default bindings: Esc quits, Ctrl-n and Ctrl-p move the
/// selection, Backspace drops a character and Enter confirms.
pub fn default_key_map() -> (root: KeyMapNode<Action>)
    ensures
        is_default_key_map(root),
{
    let mut root = KeyMapNode::new();
    let esc = KeyEvent::new(KeyCode::Esc, KeyModifiers::none());
    let next = KeyEvent::new(KeyCode::Char('n'), KeyModifiers::control());
    let previous = KeyEvent::new(KeyCode::Char('p'), KeyModifiers::control());
    let backspace = KeyEvent::new(KeyCode::Backspace, KeyModifiers::none());
    let enter = KeyEvent::new(KeyCode::Enter, KeyModifiers::none());
    let quit_action = Action::PluginAct(PluginAction::new(Command::Quit(TelescopeQuit::new())));
    let next_action = Action::PluginAct(
        PluginAction::new(Command::NextResult(TelescopeNextResult::new())),
    );
    let previous_action = Action::PluginAct(
        PluginAction::new(Command::PreviousResult(TelescopePreviousResult::new())),
    );
    let drop_action = Action::PluginAct(
        PluginAction::new(Command::DropSearchChar(TelescopeDropSearchChar::new())),
    );
    let confirm_action = Action::PluginAct(
        PluginAction::new(Command::ConfirmResult(TelescopeConfirmResult::new())),
    );
    let esc_keys = vec![esc];
    let next_keys = vec![next];
    let previous_keys = vec![previous];
    let backspace_keys = vec![backspace];
    let enter_keys = vec![enter];
    assert(normal_keys(esc_keys@) =~= seq![esc]);
    assert(normal_keys(next_keys@) =~= seq![next]);
    assert(normal_keys(previous_keys@) =~= seq![previous]);
    assert(normal_keys(backspace_keys@) =~= seq![backspace]);
    assert(normal_keys(enter_keys@) =~= seq![enter]);
    root.add_sequence(esc_keys, quit_action);
    root.add_sequence(next_keys, next_action);
    root.add_sequence(previous_keys, previous_action);
    root.add_sequence(backspace_keys, drop_action);
    root.add_sequence(enter_keys, confirm_action);
    proof {
        assert forall|path: Seq<KeyEvent>| #[trigger]
            root.has(path) <==> path.len() == 0 || (path.len() == 1 && default_command(path[0])
                is Some) by {
            lemma_prefix_of_single(path, esc);
            lemma_prefix_of_single(path, next);
            lemma_prefix_of_single(path, previous);
            lemma_prefix_of_single(path, backspace);
            lemma_prefix_of_single(path, enter);
        }
        assert forall|path: Seq<KeyEvent>| #[trigger]
            root.bound(path) == if path.len() == 1 && default_command(path[0]) is Some {
                Some(plugin_action(default_command(path[0])->0))
            } else {
                None
            } by {
            lemma_prefix_of_single(path, esc);
            lemma_prefix_of_single(path, next);
            lemma_prefix_of_single(path, previous);
            lemma_prefix_of_single(path, backspace);
            lemma_prefix_of_single(path, enter);
        }
    }
    root
}

/// The starts of a one-key sequence are the empty path and the sequence
/// itself.
proof fn lemma_prefix_of_single(path: Seq<KeyEvent>, key: KeyEvent)
    ensures
        path.is_prefix_of(seq![key]) <==> path.len() == 0 || (path.len() == 1 && path[0] == key),
        path == seq![key] <==> path.len() == 1 && path[0] == key,
{
    if path.len() == 1 && path[0] == key {
        assert(path =~= seq![key]);
    }
}

} // verus!
