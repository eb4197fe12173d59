//! The overlay controller: it takes keys, resolves them to commands, changes
//! the query and the selection, has the search run again, and hands actions
//! to the host.

use vstd::prelude::*;
use crate::action::{Action, AppAction};
use crate::bindings::{
    copy_keys, find_binding, is_for, lemma_lookup_none, lemma_lookup_same_keys, lookup, same_keys,
    Binding,
};
use crate::key_event::{normal_keys, KeyCode, KeyEvent};
use crate::key_map::{KeyMapNode, KeyProcessingResult};
use crate::mode::Mode;
use crate::plugin_action::PluginAction;
use crate::sfs_telescope::SearchFileshereSearch;
use crate::simple_input_machine::{fallback_action, process_telescope_keys};
use crate::telescope_backend::{
    next_selection, normalized, previous_selection, valid_selection, Panels, TelescopeBackend,
    TelescopeSearch,
};
use crate::telescope_commands::{
    Command, TelescopeConfirmResult, TelescopeDropSearchChar, TelescopeEraseText,
    TelescopeNextResult, TelescopePreviousResult, TelescopePushSearchChar,
    TelescopeUpdateSearchQuery,
};
use crate::telescope_query::without_last;

verus! {

/// What a key that no sequence claims does in the overlay: a printed
/// character is inserted into the query, any other key does nothing.
pub fn default_popup_action(key_event: KeyEvent) -> (action: Option<Action>)
    ensures
        action == fallback_action(key_event),
{
    match key_event.code {
        KeyCode::Char(ch) => Some(
            Action::PluginAct(
                PluginAction::new(Command::PushSearchChar(TelescopePushSearchChar::new(ch))),
            ),
        ),
        _ => None,
    }
}

/// Whether some entry of `keymap` for the overlay's mode starts with `path`,
/// its keys taken in their normal form.
pub open spec fn starts_popup_binding(keymap: Seq<Binding<Action>>, path: Seq<KeyEvent>) -> bool {
    exists|i: int|
        0 <= i < keymap.len() && (#[trigger] keymap[i]).mode == Mode::PopUp && path.is_prefix_of(
            normal_keys(keymap[i].keys@),
        )
}

/// The action that `keymap` binds to `path` in the overlay's mode: that of
/// the last entry for the mode whose keys, in their normal form, are `path`.
pub open spec fn popup_binding(keymap: Seq<Binding<Action>>, path: Seq<KeyEvent>) -> Option<Action>
    decreases keymap.len(),
{
    if keymap.len() == 0 {
        None
    } else if keymap.last().mode == Mode::PopUp && normal_keys(keymap.last().keys@) == path {
        Some(keymap.last().value)
    } else {
        popup_binding(keymap.drop_last(), path)
    }
}

/// Whether two tables hold the same entries in the same order.
pub open spec fn same_bindings(left: Seq<Binding<Action>>, right: Seq<Binding<Action>>) -> bool {
    &&& left.len() == right.len()
    &&& forall|i: int|
        0 <= i < left.len() ==> (#[trigger] left[i]).mode == right[i].mode && left[i].keys@
            == right[i].keys@ && left[i].value == right[i].value
}

/// Whether the trie `root` holds exactly the entries of `keymap` for the
/// overlay's mode, each under its keys in their normal form.
pub open spec fn is_popup_key_map(root: KeyMapNode<Action>, keymap: Seq<Binding<Action>>) -> bool {
    &&& forall|path: Seq<KeyEvent>| #[trigger] root.bound(path) == popup_binding(keymap, path)
    &&& forall|path: Seq<KeyEvent>| #[trigger]
        root.has(path) <==> path.len() == 0 || starts_popup_binding(keymap, path)
}

/// The trie of the entries of `keymap` for the overlay's mode. Keys are
/// taken in their normal form, so that a binding is found whichever way the
/// terminal reports shift and upper case.
pub fn popup_key_map(keymap: &Vec<Binding<Action>>) -> (root: KeyMapNode<Action>)
    ensures
        is_popup_key_map(root, keymap@),
{
    let mut root: KeyMapNode<Action> = KeyMapNode::new();
    let mut i: usize = 0;
    proof {
        assert(keymap@.take(0) =~= Seq::<Binding<Action>>::empty());
    }
    while i < keymap.len()
        invariant
            i <= keymap@.len(),
            is_popup_key_map(root, keymap@.take(i as int)),
        decreases keymap@.len() - i,
    {
        let ghost before = root;
        let ghost done = keymap@.take(i as int);
        let ghost next = keymap@.take(i + 1);
        let entry = &keymap[i];
        proof {
            assert(next.drop_last() =~= done);
            assert(next.last() == keymap@[i as int]);
        }
        if entry.mode == Mode::PopUp {
            root.add_sequence(copy_keys(&entry.keys), entry.value.clone());
        }
        proof {
            assert forall|path: Seq<KeyEvent>| #[trigger]
                root.bound(path) == popup_binding(next, path) by {
                assert(before.bound(path) == popup_binding(done, path));
            }
            assert forall|path: Seq<KeyEvent>| #[trigger]
                root.has(path) <==> path.len() == 0 || starts_popup_binding(next, path) by {
                assert(before.has(path) <==> path.len() == 0 || starts_popup_binding(done, path));
                if starts_popup_binding(done, path) {
                    let j = choose|j: int|
                        0 <= j < done.len() && (#[trigger] done[j]).mode == Mode::PopUp
                            && path.is_prefix_of(normal_keys(done[j].keys@));
                    assert(next[j] == done[j]);
                }
                if starts_popup_binding(next, path) {
                    let j = choose|j: int|
                        0 <= j < next.len() && (#[trigger] next[j]).mode == Mode::PopUp
                            && path.is_prefix_of(normal_keys(next[j].keys@));
                    if j < i {
                        assert(done[j] == next[j]);
                    }
                }
                if entry.mode == Mode::PopUp && path.is_prefix_of(normal_keys(entry.keys@)) {
                    assert(next[i as int] == *entry);
                }
            }
        }
        i += 1;
    }
    proof {
        assert(keymap@.take(keymap@.len() as int) =~= keymap@);
    }
    root
}

/// Whether two bound actions are alike: both are there and alike, or
/// neither is.
pub open spec fn alike_bound(left: Option<Action>, right: Option<Action>) -> bool {
    match (left, right) {
        (Some(one), Some(other)) => one.alike(other),
        (None, None) => true,
        _ => false,
    }
}

/// Whether two tables bind alike: to every sequence in every mode they give
/// actions that are alike, or both give none. The order of the entries does
/// not count.
pub open spec fn same_table(left: Seq<Binding<Action>>, right: Seq<Binding<Action>>) -> bool {
    forall|mode: Mode, keys: Seq<KeyEvent>|
        alike_bound(#[trigger] lookup(left, mode, keys), lookup(right, mode, keys))
}

/// Whether `right` binds the keys of each entry of `left` as `left` does.
pub open spec fn covered_by(left: Seq<Binding<Action>>, right: Seq<Binding<Action>>) -> bool {
    forall|i: int|
        0 <= i < left.len() ==> alike_bound(
            lookup(left, (#[trigger] left[i]).mode, left[i].keys@),
            lookup(right, left[i].mode, left[i].keys@),
        )
}

/// Two tables bind alike exactly where each binds the keys of the other's
/// entries as the other does.
pub proof fn lemma_same_table(left: Seq<Binding<Action>>, right: Seq<Binding<Action>>)
    ensures
        same_table(left, right) <==> covered_by(left, right) && covered_by(right, left),
{
    if same_table(left, right) {
        assert forall|i: int| 0 <= i < right.len() implies alike_bound(
            lookup(right, (#[trigger] right[i]).mode, right[i].keys@),
            lookup(left, right[i].mode, right[i].keys@),
        ) by {
            let mode = right[i].mode;
            let keys = right[i].keys@;
            assert(alike_bound(lookup(left, mode, keys), lookup(right, mode, keys)));
        }
    }
    if covered_by(left, right) && covered_by(right, left) {
        assert forall|mode: Mode, keys: Seq<KeyEvent>|
            alike_bound(#[trigger] lookup(left, mode, keys), lookup(right, mode, keys)) by {
            lemma_lookup_none(left, mode, keys);
            lemma_lookup_none(right, mode, keys);
            if lookup(left, mode, keys) is Some {
                let i = choose|i: int| 0 <= i < left.len() && is_for(#[trigger] left[i], mode, keys);
                lemma_lookup_same_keys(left, mode, left[i].keys@, keys);
                lemma_lookup_same_keys(right, mode, left[i].keys@, keys);
            } else if lookup(right, mode, keys) is Some {
                let j = choose|j: int|
                    0 <= j < right.len() && is_for(#[trigger] right[j], mode, keys);
                lemma_lookup_same_keys(left, mode, right[j].keys@, keys);
                lemma_lookup_same_keys(right, mode, right[j].keys@, keys);
            }
        }
    }
}

/// Whether `right` binds the keys of each entry of `left` as `left` does.
fn is_covered_by(left: &Vec<Binding<Action>>, right: &Vec<Binding<Action>>) -> (covered: bool)
    ensures
        covered == covered_by(left@, right@),
{
    let mut i: usize = 0;
    while i < left.len()
        invariant
            i <= left@.len(),
            forall|j: int|
                0 <= j < i ==> alike_bound(
                    lookup(left@, (#[trigger] left@[j]).mode, left@[j].keys@),
                    lookup(right@, left@[j].mode, left@[j].keys@),
                ),
        decreases left@.len() - i,
    {
        let entry = &left[i];
        let ours = find_binding(left, entry.mode, &entry.keys);
        let theirs = find_binding(right, entry.mode, &entry.keys);
        proof {
            lemma_lookup_none(left@, entry.mode, entry.keys@);
        }
        let alike = match (ours, theirs) {
            (Some(at), Some(there)) => left[at].value.same_as(&right[there].value),
            _ => false,
        };
        if !alike {
            return false;
        }
        i += 1;
    }
    true
}

/// One overlay: the bindings it was opened with, the trie made of them, the
/// backend, the keys of a sequence in progress, and the flag that ends it.
#[derive(Debug)]
pub struct TelescopeWindow<S: TelescopeSearch> {
    pub keymap: Vec<Binding<Action>>,
    pub key_map: KeyMapNode<Action>,
    pub telescope_backend: TelescopeBackend<S>,
    pub current_sequence: Vec<KeyEvent>,
    pub should_quit: bool,
}

impl<S: TelescopeSearch + Clone> Clone for TelescopeWindow<S> {
    /// An overlay with the same bindings, pending keys, query, selection and
    /// end flag over a clone of the search.
    fn clone(&self) -> (copy: Self)
        ensures
            same_bindings(copy.keymap@, self.keymap@),
            self.key_map.copied_as(copy.key_map),
            copy.telescope_backend.query == self.telescope_backend.query,
            cloned(self.telescope_backend.search, copy.telescope_backend.search),
            copy.telescope_backend.selection() == self.telescope_backend.selection(),
            copy.current_sequence@ == self.current_sequence@,
            copy.should_quit == self.should_quit,
    {
        TelescopeWindow {
            keymap: self.get_own_keymap(),
            key_map: self.key_map.clone(),
            telescope_backend: self.telescope_backend.clone(),
            current_sequence: copy_keys(&self.current_sequence),
            should_quit: self.should_quit,
        }
    }
}

impl<S: TelescopeSearch> TelescopeWindow<S> {
    /// Whether the overlay is fit to be used.
    pub open spec fn wf(&self) -> bool {
        self.telescope_backend.wf()
    }

    /// Whether two overlays bind alike, have equal backends, hold the same
    /// pending keys and have both ended or both not.
    pub open spec fn equals(&self, other: &Self) -> bool {
        &&& same_table(self.keymap@, other.keymap@)
        &&& self.telescope_backend.equals(&other.telescope_backend)
        &&& normal_keys(self.current_sequence@) == normal_keys(other.current_sequence@)
        &&& self.should_quit == other.should_quit
    }

    /// Whether two overlays bind alike, have equal backends, hold the same
    /// pending keys and have both ended or both not.
    pub fn eq(&self, other: &Self) -> (same: bool)
        requires
            self.wf(),
            other.wf(),
        ensures
            same == self.equals(other),
    {
        proof {
            lemma_same_table(self.keymap@, other.keymap@);
        }
        is_covered_by(&self.keymap, &other.keymap) && is_covered_by(&other.keymap, &self.keymap)
            && self.telescope_backend.eq(&other.telescope_backend) && same_keys(
            &self.current_sequence,
            &other.current_sequence,
        ) && self.should_quit == other.should_quit
    }

    /// Whether `self` is `before` after its query text became `contents` and
    /// the search was run again: the results answer the new text and the
    /// selection is re-derived for them.
    pub open spec fn requeried(&self, before: &Self, contents: Seq<char>) -> bool {
        &&& self.wf()
        &&& self.telescope_backend.query.contents@ == contents
        &&& self.telescope_backend.query.prefix == before.telescope_backend.query.prefix
        &&& self.telescope_backend.query.suffix == before.telescope_backend.query.suffix
        &&& self.telescope_backend.in_sync()
        &&& self.telescope_backend.selection() == normalized(
            before.telescope_backend.selection(),
            self.telescope_backend.count(),
        )
        &&& self.telescope_backend.shows_as(&before.telescope_backend)
        &&& self.should_quit == before.should_quit
    }

    /// Whether `self` is `before` after `command`, with `emitted` handed to
    /// the host. The bindings and the pending keys are not spoken of.
    pub open spec fn performed(
        &self,
        before: &Self,
        command: Command,
        emitted: Option<Action>,
    ) -> bool {
        let old_backend = before.telescope_backend;
        let new_backend = self.telescope_backend;
        match command {
            Command::PushSearchChar(push) => self.requeried(
                before,
                old_backend.query.contents@.push(push.ch),
            ) && emitted is None,
            Command::DropSearchChar(_) => self.requeried(
                before,
                without_last(old_backend.query.contents@),
            ) && emitted is None,
            Command::EraseText(_) => self.requeried(before, Seq::<char>::empty()) && emitted
                is None,
            Command::UpdateSearchQuery(update) => {
                &&& self.wf()
                &&& new_backend.query == old_backend.query
                &&& new_backend.search.answered() == Some(update.query@)
                &&& new_backend.selection() == normalized(
                    old_backend.selection(),
                    new_backend.count(),
                )
                &&& new_backend.shows_as(&old_backend)
                &&& self.should_quit == before.should_quit
                &&& emitted is None
            },
            Command::NextResult(_) => {
                &&& new_backend.search == old_backend.search
                &&& new_backend.query == old_backend.query
                &&& new_backend.selection() == next_selection(
                    old_backend.selection(),
                    old_backend.count(),
                )
                &&& new_backend.shows_as(&old_backend)
                &&& self.should_quit == before.should_quit
                &&& emitted is None
            },
            Command::PreviousResult(_) => {
                &&& new_backend.search == old_backend.search
                &&& new_backend.query == old_backend.query
                &&& new_backend.selection() == previous_selection(
                    old_backend.selection(),
                    old_backend.count(),
                )
                &&& new_backend.shows_as(&old_backend)
                &&& self.should_quit == before.should_quit
                &&& emitted is None
            },
            Command::ConfirmResult(_) => {
                &&& self.wf()
                &&& new_backend.search.labels() == old_backend.search.labels()
                &&& new_backend.search.answered() == old_backend.search.answered()
                &&& new_backend.search.title() == old_backend.search.title()
                &&& new_backend.query == old_backend.query
                &&& new_backend.selection() == normalized(
                    old_backend.selection(),
                    old_backend.count(),
                )
                &&& new_backend.shows_as(&old_backend)
                &&& emitted == match new_backend.selection() {
                    Some(id) => old_backend.search.confirmation(id as int),
                    None => None,
                }
                &&& new_backend.selection() is None ==> new_backend.search == old_backend.search
                &&& self.should_quit == before.should_quit
            },
            Command::Quit(_) => {
                &&& new_backend == old_backend
                &&& self.should_quit
                &&& emitted is None
            },
        }
    }

    /// Whether `self` is `before` after the host's pipeline ran `action`: a
    /// command is performed, and any other action passes through unchanged.
    pub open spec fn dispatched(
        &self,
        before: &Self,
        action: Action,
        emitted: Option<Action>,
    ) -> bool {
        match action {
            Action::PluginAct(plugin_action) => self.performed(
                before,
                plugin_action.command,
                emitted,
            ),
            _ => {
                &&& self.telescope_backend == before.telescope_backend
                &&& self.should_quit == before.should_quit
                &&& emitted == Some(action)
            },
        }
    }

    /// An overlay over `search` with the bindings of `keymap`, an empty
    /// query, nothing selected and no key pending.
    pub fn new(search: S, keymap: Vec<Binding<Action>>) -> (window: Self)
        requires
            search.wf(),
        ensures
            window.wf(),
            window.keymap == keymap,
            is_popup_key_map(window.key_map, keymap@),
            window.telescope_backend.search == search,
            window.telescope_backend.query.full_text() == Seq::<char>::empty(),
            window.telescope_backend.selection() is None,
            window.current_sequence@.len() == 0,
            !window.should_quit,
    {
        let key_map = popup_key_map(&keymap);
        TelescopeWindow {
            keymap,
            key_map,
            telescope_backend: TelescopeBackend::new(search),
            current_sequence: Vec::new(),
            should_quit: false,
        }
    }

    /// Searches for the query as it stands.
    fn update_self_query(&mut self)
        requires
            old(self).wf(),
        ensures
            final(self).requeried(old(self), old(self).telescope_backend.query.contents@),
            final(self).keymap == old(self).keymap,
            final(self).key_map == old(self).key_map,
            final(self).current_sequence == old(self).current_sequence,
    {
        let query = self.get_search_query();
        self.update_search_query(query);
    }

    /// What to show now; the selection is re-derived first.
    pub fn draw(&mut self) -> (panels: Panels)
        requires
            old(self).wf(),
        ensures
            final(self).wf(),
            final(self).telescope_backend.selection() == normalized(
                old(self).telescope_backend.selection(),
                old(self).telescope_backend.count(),
            ),
            final(self).telescope_backend.shows_as(&old(self).telescope_backend),
            final(self).telescope_backend.search == old(self).telescope_backend.search,
            final(self).telescope_backend.query == old(self).telescope_backend.query,
            final(self).keymap == old(self).keymap,
            final(self).key_map == old(self).key_map,
            final(self).current_sequence == old(self).current_sequence,
            final(self).should_quit == old(self).should_quit,
            panels.selected == final(self).telescope_backend.selection(),
            panels.rows@.len() == old(self).telescope_backend.search.labels().len(),
            forall|i: int|
                0 <= i < panels.rows@.len() ==> (#[trigger] panels.rows@[i])@ == old(
                    self,
                ).telescope_backend.search.labels()[i],
            panels.query_title@ == old(self).telescope_backend.search.title(),
            panels.query_text@ == old(self).telescope_backend.query.contents@,
            match panels.selected {
                Some(id) => id < panels.rows@.len() && (panels.preview matches Some(path) && path@
                    == old(self).telescope_backend.search.preview_source(id as int)),
                None => panels.rows@.len() == 0 && panels.preview is None,
            },
    {
        self.telescope_backend.draw()
    }

    /// Turns the selected result into an action for the host; with no result
    /// there is none.
    pub fn confirm_result(&mut self) -> (action: Option<Action>)
        requires
            old(self).wf(),
        ensures
            final(self).performed(
                old(self),
                Command::ConfirmResult(TelescopeConfirmResult {  }),
                action,
            ),
            final(self).keymap == old(self).keymap,
            final(self).key_map == old(self).key_map,
            final(self).current_sequence == old(self).current_sequence,
    {
        self.telescope_backend.confirm_result()
    }

    /// Selects the next result.
    pub fn next_result(&mut self)
        requires
            old(self).wf(),
        ensures
            final(self).performed(
                old(self),
                Command::NextResult(TelescopeNextResult {  }),
                None,
            ),
            final(self).keymap == old(self).keymap,
            final(self).key_map == old(self).key_map,
            final(self).current_sequence == old(self).current_sequence,
    {
        self.telescope_backend.next_result();
    }

    /// Selects the previous result.
    pub fn previous_result(&mut self)
        requires
            old(self).wf(),
        ensures
            final(self).performed(
                old(self),
                Command::PreviousResult(TelescopePreviousResult {  }),
                None,
            ),
            final(self).keymap == old(self).keymap,
            final(self).key_map == old(self).key_map,
            final(self).current_sequence == old(self).current_sequence,
    {
        self.telescope_backend.previous_result();
    }

    /// Searches for `query`, whatever the query text is.
    pub fn update_search_query(&mut self, query: String)
        requires
            old(self).wf(),
        ensures
            final(self).performed(
                old(self),
                Command::UpdateSearchQuery(
                    TelescopeUpdateSearchQuery { query },
                ),
                None,
            ),
            final(self).keymap == old(self).keymap,
            final(self).key_map == old(self).key_map,
            final(self).current_sequence == old(self).current_sequence,
    {
        self.telescope_backend.update_search_query(query);
    }

    /// Appends `ch` to the query and searches again.
    pub fn push_search_char(&mut self, ch: char)
        requires
            old(self).wf(),
        ensures
            final(self).performed(
                old(self),
                Command::PushSearchChar(TelescopePushSearchChar { ch }),
                None,
            ),
            final(self).keymap == old(self).keymap,
            final(self).key_map == old(self).key_map,
            final(self).current_sequence == old(self).current_sequence,
    {
        self.telescope_backend.query.append_char(ch);
        self.update_self_query();
    }

    /// Drops the last character of the query and searches again. An empty
    /// query stays empty and is searched for again.
    pub fn drop_search_char(&mut self)
        requires
            old(self).wf(),
        ensures
            final(self).performed(
                old(self),
                Command::DropSearchChar(TelescopeDropSearchChar {  }),
                None,
            ),
            final(self).keymap == old(self).keymap,
            final(self).key_map == old(self).key_map,
            final(self).current_sequence == old(self).current_sequence,
    {
        self.telescope_backend.query.drop_char();
        self.update_self_query();
    }

    /// Ends the overlay.
    pub fn quit(&mut self)
        ensures
            final(self).should_quit,
            final(self).telescope_backend == old(self).telescope_backend,
            final(self).keymap == old(self).keymap,
            final(self).key_map == old(self).key_map,
            final(self).current_sequence == old(self).current_sequence,
    {
        self.should_quit = true;
    }

    /// Whether the overlay has ended.
    pub fn should_quit(&self) -> (ended: bool)
        ensures
            ended == self.should_quit,
    {
        self.should_quit
    }

    /// Empties the query and searches again.
    pub fn erase_text(&mut self)
        requires
            old(self).wf(),
        ensures
            final(self).performed(
                old(self),
                Command::EraseText(TelescopeEraseText {  }),
                None,
            ),
            final(self).keymap == old(self).keymap,
            final(self).key_map == old(self).key_map,
            final(self).current_sequence == old(self).current_sequence,
    {
        self.telescope_backend.query.clear_contents();
        self.update_self_query();
    }

    /// The text that a search is given: the query inside its frame.
    pub fn get_search_query(&self) -> (text: String)
        ensures
            text@ == self.telescope_backend.query.full_text(),
    {
        self.telescope_backend.query.get_contents()
    }

    /// The name of the overlay.
    pub fn display_details(&self) -> (name: String)
        ensures
            name@ == "Telescope"@,
    {
        "Telescope".to_owned()
    }

    /// What `key_event` falls back to where no sequence claims it.
    pub fn get_default_action(&self, key_event: KeyEvent) -> (action: Option<Action>)
        ensures
            action == fallback_action(key_event),
    {
        default_popup_action(key_event)
    }

    /// A copy of the bindings that the overlay was opened with.
    pub fn get_own_keymap(&self) -> (keymap: Vec<Binding<Action>>)
        ensures
            same_bindings(keymap@, self.keymap@),
    {
        let mut keymap: Vec<Binding<Action>> = Vec::new();
        let mut i: usize = 0;
        while i < self.keymap.len()
            invariant
                i <= self.keymap@.len(),
                keymap@.len() == i,
                forall|j: int|
                    0 <= j < i ==> (#[trigger] keymap@[j]).mode == self.keymap@[j].mode
                        && keymap@[j].keys@ == self.keymap@[j].keys@ && keymap@[j].value
                        == self.keymap@[j].value,
            decreases self.keymap@.len() - i,
        {
            let entry = &self.keymap[i];
            keymap.push(
                Binding {
                    mode: entry.mode,
                    keys: copy_keys(&entry.keys),
                    value: entry.value.clone(),
                },
            );
            i += 1;
        }
        keymap
    }

    /// Performs `command` on the overlay and returns what it emits.
    pub fn perform(&mut self, command: Command) -> (emitted: Option<Action>)
        requires
            old(self).wf(),
        ensures
            final(self).performed(old(self), command, emitted),
            final(self).wf(),
            final(self).keymap == old(self).keymap,
            final(self).key_map == old(self).key_map,
            final(self).current_sequence == old(self).current_sequence,
    {
        match command {
            Command::UpdateSearchQuery(update) => {
                self.update_search_query(update.query);
                None
            },
            Command::EraseText(_) => {
                self.erase_text();
                None
            },
            Command::PushSearchChar(push) => {
                self.push_search_char(push.ch);
                None
            },
            Command::DropSearchChar(_) => {
                self.drop_search_char();
                None
            },
            Command::NextResult(_) => {
                self.next_result();
                None
            },
            Command::PreviousResult(_) => {
                self.previous_result();
                None
            },
            Command::ConfirmResult(_) => self.confirm_result(),
            Command::Quit(_) => {
                self.quit();
                None
            },
        }
    }

    /// Takes one key. An ended overlay ignores it. Otherwise the key joins
    /// the pending sequence, which is looked up with its keys in normal
    /// form: a bound sequence is dispatched, the start of a longer one waits
    /// for more keys, and an unknown one falls back to the default for the
    /// key as it was pressed. Returns what is to be handed to the host.
    pub fn handle_key_event(&mut self, key_event: KeyEvent) -> (emitted: Option<Action>)
        requires
            old(self).wf(),
        ensures
            final(self).wf(),
            final(self).keymap == old(self).keymap,
            final(self).key_map == old(self).key_map,
            old(self).should_quit ==> *final(self) == *old(self) && emitted is None,
            !old(self).should_quit ==> ({
                let outcome = old(self).key_map.resolve(
                    normal_keys(old(self).current_sequence@.push(key_event)),
                );
                let action = match outcome {
                    KeyProcessingResult::Complete(bound) => Some(bound),
                    KeyProcessingResult::Incomplete => None,
                    KeyProcessingResult::Invalid => fallback_action(key_event),
                };
                &&& final(self).current_sequence@ == if outcome is Incomplete {
                    old(self).current_sequence@.push(key_event)
                } else {
                    Seq::<KeyEvent>::empty()
                }
                &&& match action {
                    Some(found) => final(self).dispatched(old(self), found, emitted),
                    None => {
                        &&& final(self).telescope_backend == old(self).telescope_backend
                        &&& final(self).should_quit == old(self).should_quit
                        &&& emitted is None
                    },
                }
            }),
    {
        if self.should_quit {
            return None;
        }
        let action = match process_telescope_keys(
            &self.key_map,
            &mut self.current_sequence,
            key_event,
        ) {
            KeyProcessingResult::Complete(bound) => Some(bound),
            KeyProcessingResult::Incomplete => None,
            KeyProcessingResult::Invalid => default_popup_action(key_event),
        };
        match action {
            Some(Action::PluginAct(plugin_action)) => self.perform(plugin_action.get_command()),
            Some(other) => Some(other),
            None => None,
        }
    }
}

/// After any command but quitting, the selection is fit for the results as
/// they then are; quitting leaves it as it was. And where the results
/// answered the query text before a command that came from a key, they
/// answer it afterwards: text, results and selection do not drift apart.
pub proof fn lemma_commands_keep_overlay_consistent<S: TelescopeSearch>(
    before: TelescopeWindow<S>,
    command: Command,
    after: TelescopeWindow<S>,
    emitted: Option<Action>,
)
    requires
        after.performed(&before, command, emitted),
    ensures
        !(command is Quit) ==> valid_selection(
            after.telescope_backend.selection(),
            after.telescope_backend.count() as nat,
        ),
        command is Quit ==> after.telescope_backend == before.telescope_backend,
        before.telescope_backend.in_sync() && !(command is UpdateSearchQuery)
            ==> after.telescope_backend.in_sync(),
{
}

/// The flag that ends an overlay is never taken back: whatever command an
/// ended overlay performs, it is ended afterwards.
pub proof fn lemma_ended_stays_ended<S: TelescopeSearch>(
    before: TelescopeWindow<S>,
    command: Command,
    after: TelescopeWindow<S>,
    emitted: Option<Action>,
)
    requires
        after.performed(&before, command, emitted),
        before.should_quit,
    ensures
        after.should_quit,
{
}

/// The message shown where the overlay cannot be opened.
pub open spec fn missing_plugin_message() -> Seq<char> {
    "Failed to fetch the Telescope plugin when trying to open the popup"@
}

/// Opens the overlay that searches files below `absolute_directory`.
/// `popup_keymap` is the overlay's bindings as the host resolved them from
/// the registered plugin, or `None` where the plugin is not registered: then
/// no overlay is made and the host is given a message to show.
pub fn open_sfs<F: Fn(String, String, usize) -> Vec<String>>(
    popup_keymap: Option<Vec<Binding<Action>>>,
    absolute_directory: String,
    finder: F,
) -> (opened: Result<TelescopeWindow<SearchFileshereSearch<F>>, Action>)
    requires
        forall|directory: String, query: String, limit: usize|
            call_requires(finder, (directory, query, limit)),
    ensures
        match popup_keymap {
            None => opened matches Err(Action::AppAct(AppAction::DisplayMessage(message)))
                && message@ == missing_plugin_message(),
            Some(keymap) => opened matches Ok(window) && window.is_new_sfs(
                absolute_directory,
                finder,
                keymap,
            ),
        },
{
    let popup_keymap = match popup_keymap {
        None => {
            return Err(
                Action::AppAct(
                    AppAction::DisplayMessage(
                        "Failed to fetch the Telescope plugin when trying to open the popup".to_owned(),
                    ),
                ),
            );
        },
        Some(keymap) => keymap,
    };
    Ok(TelescopeWindow::new_sfs(absolute_directory, finder, popup_keymap))
}

impl<F: Fn(String, String, usize) -> Vec<String>> TelescopeWindow<SearchFileshereSearch<F>> {
    /// Whether the overlay is a fresh one that searches files below
    /// `absolute_directory` with `finder` under the bindings `keymap`.
    pub open spec fn is_new_sfs(
        &self,
        absolute_directory: String,
        finder: F,
        keymap: Vec<Binding<Action>>,
    ) -> bool {
        &&& self.wf()
        &&& self.keymap == keymap
        &&& is_popup_key_map(self.key_map, keymap@)
        &&& self.telescope_backend.is_new_sfs(absolute_directory, finder)
        &&& self.current_sequence@.len() == 0
        &&& !self.should_quit
    }

    /// An overlay that searches files below `absolute_directory` with
    /// `finder`, under the bindings `keymap`.
    pub fn new_sfs(absolute_directory: String, finder: F, keymap: Vec<Binding<Action>>) -> (window:
        Self)
        requires
            forall|directory: String, query: String, limit: usize|
                call_requires(finder, (directory, query, limit)),
        ensures
            window.is_new_sfs(absolute_directory, finder, keymap),
    {
        let key_map = popup_key_map(&keymap);
        TelescopeWindow {
            keymap,
            key_map,
            telescope_backend: TelescopeBackend::new_sfs(absolute_directory, finder),
            current_sequence: Vec::new(),
            should_quit: false,
        }
    }
}

} // verus!
