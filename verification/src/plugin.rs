//! The plugin as the host sees it: the default bindings, the functionalities
//! offered by name, and the split of the bindings between the host and the
//! overlay.

use vstd::prelude::*;
use crate::action::{Action, CustomAction};
use crate::bindings::{
    copy_keys, distinct, insert_binding, is_for, lemma_lookup_none, lookup, Binding,
};
use crate::key_event::{
    control_only, no_modifiers, normal_keys, pressed, KeyCode, KeyEvent, KeyModifiers,
};
use crate::mode::Mode;
use crate::plugin_action::PluginAction;
use crate::simple_input_machine::plugin_action;
use crate::telescope_commands::{
    Command, TelescopeConfirmResult, TelescopeDropSearchChar, TelescopeNextResult,
    TelescopePreviousResult, TelescopeQuit,
};

verus! {

/// The name that a table of named bindings gives to `keys` in `mode`.
pub open spec fn name_for(
    entries: Seq<Binding<String>>,
    mode: Mode,
    keys: Seq<KeyEvent>,
) -> Option<Seq<char>> {
    match lookup(entries, mode, keys) {
        Some(name) => Some(name@),
        None => None,
    }
}

/// The name that the default bindings give to `keys` in `mode`: space, `s`,
/// `g` opens the overlay in normal mode; in the overlay Esc quits, Ctrl-n
/// and Ctrl-p move the selection, Backspace drops a character and Enter
/// confirms. Keys count in their normal form.
pub open spec fn default_name(mode: Mode, keys: Seq<KeyEvent>) -> Option<Seq<char>> {
    let plain = no_modifiers();
    let control = control_only();
    let normal = normal_keys(keys);
    if mode == Mode::Normal && normal == seq![
        pressed(KeyCode::Char(' '), plain),
        pressed(KeyCode::Char('s'), plain),
        pressed(KeyCode::Char('g'), plain),
    ] {
        Some("OpenSFS"@)
    } else if mode == Mode::PopUp && normal == seq![
        pressed(KeyCode::Esc, plain),
    ] {
        Some("TelescopeQuit"@)
    } else if mode == Mode::PopUp && normal == seq![
        pressed(KeyCode::Char('n'), control),
    ] {
        Some("TelescopeNextResult"@)
    } else if mode == Mode::PopUp && normal == seq![
        pressed(KeyCode::Char('p'), control),
    ] {
        Some("TelescopePreviousResult"@)
    } else if mode == Mode::PopUp && normal == seq![
        pressed(KeyCode::Backspace, plain),
    ] {
        Some("TelescopeDropSearchChar"@)
    } else if mode == Mode::PopUp && normal == seq![
        pressed(KeyCode::Enter, plain),
    ] {
        Some("TelescopeConfirmResult"@)
    } else {
        None
    }
}

/// The action that the plugin offers under `name`, if any.
pub open spec fn functionality(name: Seq<char>) -> Option<Action> {
    if name == "OpenSFS"@ {
        Some(Action::CustomAct(CustomAction::OpenSfs))
    } else if name == "TelescopeQuit"@ {
        Some(plugin_action(Command::Quit(TelescopeQuit {  })))
    } else if name == "TelescopeNextResult"@ {
        Some(plugin_action(Command::NextResult(TelescopeNextResult {  })))
    } else if name == "TelescopePreviousResult"@ {
        Some(plugin_action(Command::PreviousResult(TelescopePreviousResult {  })))
    } else if name == "TelescopeDropSearchChar"@ {
        Some(plugin_action(Command::DropSearchChar(TelescopeDropSearchChar {  })))
    } else if name == "TelescopeConfirmResult"@ {
        Some(plugin_action(Command::ConfirmResult(TelescopeConfirmResult {  })))
    } else {
        None
    }
}

/// The action that a table of functionalities holds under `name`: that of
/// the last entry with the name.
pub open spec fn offered(table: Seq<(String, Action)>, name: Seq<char>) -> Option<Action>
    decreases table.len(),
{
    if table.len() == 0 {
        None
    } else if table.last().0@ == name {
        Some(table.last().1)
    } else {
        offered(table.drop_last(), name)
    }
}

/// The functionalities that the plugin offers, by name.
pub fn get_functionalities() -> (functionality_map: Vec<(String, Action)>)
    ensures
        functionality_map@.len() == 6,
        forall|name: Seq<char>| #[trigger]
            offered(functionality_map@, name) == functionality(name),
{
    let mut functionality_map: Vec<(String, Action)> = Vec::new();
    functionality_map.push(("OpenSFS".to_owned(), Action::CustomAct(CustomAction::OpenSfs)));
    functionality_map.push(
        (
            "TelescopeQuit".to_owned(),
            Action::PluginAct(PluginAction::new(Command::Quit(TelescopeQuit::new()))),
        ),
    );
    functionality_map.push(
        (
            "TelescopeNextResult".to_owned(),
            Action::PluginAct(PluginAction::new(Command::NextResult(TelescopeNextResult::new()))),
        ),
    );
    functionality_map.push(
        (
            "TelescopePreviousResult".to_owned(),
            Action::PluginAct(
                PluginAction::new(Command::PreviousResult(TelescopePreviousResult::new())),
            ),
        ),
    );
    functionality_map.push(
        (
            "TelescopeDropSearchChar".to_owned(),
            Action::PluginAct(
                PluginAction::new(Command::DropSearchChar(TelescopeDropSearchChar::new())),
            ),
        ),
    );
    functionality_map.push(
        (
            "TelescopeConfirmResult".to_owned(),
            Action::PluginAct(
                PluginAction::new(Command::ConfirmResult(TelescopeConfirmResult::new())),
            ),
        ),
    );
    proof {
        reveal_strlit("OpenSFS");
        reveal_strlit("TelescopeQuit");
        reveal_strlit("TelescopeNextResult");
        reveal_strlit("TelescopePreviousResult");
        reveal_strlit("TelescopeDropSearchChar");
        reveal_strlit("TelescopeConfirmResult");
        let table = functionality_map@;
        assert("OpenSFS"@.len() == 7);
        assert("TelescopeQuit"@.len() == 13);
        assert("TelescopeNextResult"@.len() == 19);
        assert("TelescopePreviousResult"@[9] != "TelescopeDropSearchChar"@[9]);
        assert forall|name: Seq<char>| #[trigger] offered(table, name) == functionality(name) by {
            reveal_with_fuel(offered, 7);
        }
    }
    functionality_map
}

/// The default bindings.
pub fn get_default_bindings() -> (bindings_map: Vec<Binding<String>>)
    ensures
        bindings_map@.len() == 6,
        distinct(bindings_map@),
        forall|mode: Mode, keys: Seq<KeyEvent>| #[trigger]
            name_for(bindings_map@, mode, keys) == default_name(mode, keys),
{
    let plain = KeyModifiers::none();
    let control = KeyModifiers::control();
    let open_keys = vec![
        KeyEvent::new(KeyCode::Char(' '), plain),
        KeyEvent::new(KeyCode::Char('s'), plain),
        KeyEvent::new(KeyCode::Char('g'), plain),
    ];
    let quit_keys = vec![KeyEvent::new(KeyCode::Esc, plain)];
    let next_keys = vec![KeyEvent::new(KeyCode::Char('n'), control)];
    let previous_keys = vec![KeyEvent::new(KeyCode::Char('p'), control)];
    let drop_keys = vec![KeyEvent::new(KeyCode::Backspace, plain)];
    let confirm_keys = vec![KeyEvent::new(KeyCode::Enter, plain)];
    proof {
        assert(open_keys@ =~= seq![
            pressed(KeyCode::Char(' '), plain),
            pressed(KeyCode::Char('s'), plain),
            pressed(KeyCode::Char('g'), plain),
        ]);
        assert(quit_keys@ =~= seq![pressed(KeyCode::Esc, plain)]);
        assert(next_keys@ =~= seq![pressed(KeyCode::Char('n'), control)]);
        assert(previous_keys@ =~= seq![pressed(KeyCode::Char('p'), control)]);
        assert(drop_keys@ =~= seq![pressed(KeyCode::Backspace, plain)]);
        assert(confirm_keys@ =~= seq![pressed(KeyCode::Enter, plain)]);
        assert(next_keys@[0] != previous_keys@[0]);
        assert(normal_keys(open_keys@) =~= open_keys@);
        assert(normal_keys(quit_keys@) =~= quit_keys@);
        assert(normal_keys(next_keys@) =~= next_keys@);
        assert(normal_keys(previous_keys@) =~= previous_keys@);
        assert(normal_keys(drop_keys@) =~= drop_keys@);
        assert(normal_keys(confirm_keys@) =~= confirm_keys@);
    }
    let mut bindings_map: Vec<Binding<String>> = Vec::new();
    insert_binding(&mut bindings_map, Mode::Normal, open_keys, "OpenSFS".to_owned());
    insert_binding(&mut bindings_map, Mode::PopUp, quit_keys, "TelescopeQuit".to_owned());
    insert_binding(&mut bindings_map, Mode::PopUp, next_keys, "TelescopeNextResult".to_owned());
    insert_binding(
        &mut bindings_map,
        Mode::PopUp,
        previous_keys,
        "TelescopePreviousResult".to_owned(),
    );
    insert_binding(&mut bindings_map, Mode::PopUp, drop_keys, "TelescopeDropSearchChar".to_owned());
    insert_binding(
        &mut bindings_map,
        Mode::PopUp,
        confirm_keys,
        "TelescopeConfirmResult".to_owned(),
    );
    bindings_map
}

/// A copy of one entry of a table of named bindings.
fn copy_named(entry: &Binding<String>) -> (copy: Binding<String>)
    ensures
        copy.mode == entry.mode,
        copy.keys@ == entry.keys@,
        copy.value == entry.value,
{
    Binding { mode: entry.mode, keys: copy_keys(&entry.keys), value: entry.value.clone() }
}

/// A copy of a table of named bindings.
fn copy_bindings(entries: &Vec<Binding<String>>) -> (copy: Vec<Binding<String>>)
    ensures
        copy@.len() == entries@.len(),
        forall|i: int|
            0 <= i < copy@.len() ==> (#[trigger] copy@[i]).mode == entries@[i].mode
                && copy@[i].keys@ == entries@[i].keys@ && copy@[i].value == entries@[i].value,
        forall|mode: Mode, keys: Seq<KeyEvent>| #[trigger]
            lookup(copy@, mode, keys) == lookup(entries@, mode, keys),
        distinct(entries@) ==> distinct(copy@),
{
    let mut copy: Vec<Binding<String>> = Vec::new();
    let mut i: usize = 0;
    while i < entries.len()
        invariant
            i <= entries@.len(),
            copy@.len() == i,
            forall|j: int|
                0 <= j < i ==> (#[trigger] copy@[j]).mode == entries@[j].mode && copy@[j].keys@
                    == entries@[j].keys@ && copy@[j].value == entries@[j].value,
            forall|mode: Mode, keys: Seq<KeyEvent>| #[trigger]
                lookup(copy@, mode, keys) == lookup(entries@.take(i as int), mode, keys),
        decreases entries@.len() - i,
    {
        let ghost before = copy@;
        copy.push(copy_named(&entries[i]));
        proof {
            let next = entries@.take(i + 1);
            assert(next.drop_last() =~= entries@.take(i as int));
            assert(copy@.drop_last() =~= before);
            assert forall|mode: Mode, keys: Seq<KeyEvent>| #[trigger]
                lookup(copy@, mode, keys) == lookup(next, mode, keys) by {
                assert(lookup(before, mode, keys) == lookup(entries@.take(i as int), mode, keys));
            }
        }
        i += 1;
    }
    proof {
        assert(entries@.take(entries@.len() as int) =~= entries@);
    }
    copy
}

/// The plugin as the host sees it: the bindings that open it, the bindings
/// of its overlay, and the functionalities it offers.
#[derive(Debug)]
pub struct Telescope {
    plugin_bindings: Vec<Binding<String>>,
    popup_bindings: Vec<Binding<String>>,
    functionality_map: Vec<(String, Action)>,
}

impl Clone for Telescope {
    /// A plugin with the same bindings and functionalities.
    fn clone(&self) -> (copy: Self)
        ensures
            forall|mode: Mode, keys: Seq<KeyEvent>| #[trigger]
                lookup(copy.plugin_bindings(), mode, keys) == lookup(
                    self.plugin_bindings(),
                    mode,
                    keys,
                ),
            forall|mode: Mode, keys: Seq<KeyEvent>| #[trigger]
                lookup(copy.popup_bindings(), mode, keys) == lookup(
                    self.popup_bindings(),
                    mode,
                    keys,
                ),
            distinct(self.plugin_bindings()) ==> distinct(copy.plugin_bindings()),
            distinct(self.popup_bindings()) ==> distinct(copy.popup_bindings()),
            copy.functionality_map() == self.functionality_map(),
    {
        Telescope {
            plugin_bindings: self.get_plugin_bindings(),
            popup_bindings: self.get_popup_bindings(),
            functionality_map: self.get_functionality_map(),
        }
    }
}

impl Telescope {
    /// The bindings read outside the overlay.
    pub closed spec fn plugin_bindings(&self) -> Seq<Binding<String>> {
        self.plugin_bindings@
    }

    /// The bindings read inside the overlay.
    pub closed spec fn popup_bindings(&self) -> Seq<Binding<String>> {
        self.popup_bindings@
    }

    /// The functionalities offered, by name.
    pub closed spec fn functionality_map(&self) -> Seq<(String, Action)> {
        self.functionality_map@
    }

    /// The name that the default bindings overridden by `custom` give to
    /// `keys` in `mode`.
    pub open spec fn merged_name(
        custom: Seq<Binding<String>>,
        mode: Mode,
        keys: Seq<KeyEvent>,
    ) -> Option<Seq<char>> {
        match name_for(custom, mode, keys) {
            Some(name) => Some(name),
            None => default_name(mode, keys),
        }
    }

    /// The plugin with the default bindings overridden by
    /// `custom_bindings_map`. The bindings for the overlay's mode become the
    /// overlay's bindings, all others the plugin's.
    pub fn new(custom_bindings_map: Vec<Binding<String>>) -> (plugin: Self)
        ensures
            distinct(plugin.popup_bindings()),
            distinct(plugin.plugin_bindings()),
            forall|mode: Mode, keys: Seq<KeyEvent>| #[trigger]
                name_for(plugin.popup_bindings(), mode, keys) == if mode == Mode::PopUp {
                    Self::merged_name(custom_bindings_map@, mode, keys)
                } else {
                    None
                },
            forall|mode: Mode, keys: Seq<KeyEvent>| #[trigger]
                name_for(plugin.plugin_bindings(), mode, keys) == if mode != Mode::PopUp {
                    Self::merged_name(custom_bindings_map@, mode, keys)
                } else {
                    None
                },
            plugin.functionality_map().len() == 6,
            forall|name: Seq<char>| #[trigger]
                offered(plugin.functionality_map(), name) == functionality(name),
    {
        let functionality_map = get_functionalities();
        let mut bindings_map = get_default_bindings();
        let ghost defaults = bindings_map@;
        let ghost custom = custom_bindings_map@;
        let mut n: usize = 0;
        while n < custom_bindings_map.len()
            invariant
                n <= custom_bindings_map@.len(),
                custom_bindings_map@ == custom,
                distinct(bindings_map@),
                forall|mode: Mode, keys: Seq<KeyEvent>| #[trigger]
                    lookup(bindings_map@, mode, keys) == match lookup(
                        custom.take(n as int),
                        mode,
                        keys,
                    ) {
                        Some(name) => Some(name),
                        None => lookup(defaults, mode, keys),
                    },
            decreases custom_bindings_map@.len() - n,
        {
            let entry = &custom_bindings_map[n];
            proof {
                assert(custom.take(n + 1).drop_last() =~= custom.take(n as int));
            }
            insert_binding(
                &mut bindings_map,
                entry.mode,
                copy_keys(&entry.keys),
                entry.value.clone(),
            );
            n += 1;
        }
        let ghost all = bindings_map@;
        proof {
            assert(custom.take(custom.len() as int) =~= custom);
            assert forall|mode: Mode, keys: Seq<KeyEvent>| #[trigger]
                name_for(all, mode, keys) == Self::merged_name(custom, mode, keys) by {
                assert(name_for(defaults, mode, keys) == default_name(mode, keys));
            }
        }
        let mut plugin_bindings: Vec<Binding<String>> = Vec::new();
        let mut popup_bindings: Vec<Binding<String>> = Vec::new();
        let mut i: usize = 0;
        while i < bindings_map.len()
            invariant
                i <= bindings_map@.len(),
                bindings_map@ == all,
                distinct(all),
                distinct(popup_bindings@),
                distinct(plugin_bindings@),
                forall|mode: Mode, keys: Seq<KeyEvent>| #[trigger]
                    lookup(popup_bindings@, mode, keys) == if mode == Mode::PopUp {
                        lookup(all.take(i as int), mode, keys)
                    } else {
                        None
                    },
                forall|mode: Mode, keys: Seq<KeyEvent>| #[trigger]
                    lookup(plugin_bindings@, mode, keys) == if mode != Mode::PopUp {
                        lookup(all.take(i as int), mode, keys)
                    } else {
                        None
                    },
            decreases bindings_map@.len() - i,
        {
            let ghost popup_before = popup_bindings@;
            let ghost plugin_before = plugin_bindings@;
            let entry = &bindings_map[i];
            proof {
                let done = all.take(i as int);
                assert(all.take(i + 1).drop_last() =~= done);
                assert forall|j: int| 0 <= j < done.len() implies !is_for(
                    #[trigger] done[j],
                    entry.mode,
                    entry.keys@,
                ) by {
                    assert(!is_for(all[i as int], all[j].mode, all[j].keys@));
                }
                lemma_lookup_none(done, entry.mode, entry.keys@);
                lemma_lookup_none(popup_before, entry.mode, entry.keys@);
                lemma_lookup_none(plugin_before, entry.mode, entry.keys@);
            }
            match entry.mode {
                Mode::PopUp => {
                    popup_bindings.push(copy_named(entry));
                },
                _ => {
                    plugin_bindings.push(copy_named(entry));
                },
            }
            proof {
                let done = all.take(i as int);
                let next = all.take(i + 1);
                if entry.mode == Mode::PopUp {
                    assert(popup_bindings@.drop_last() =~= popup_before);
                } else {
                    assert(plugin_bindings@.drop_last() =~= plugin_before);
                }
                assert forall|mode: Mode, keys: Seq<KeyEvent>| #[trigger]
                    lookup(popup_bindings@, mode, keys) == if mode == Mode::PopUp {
                        lookup(next, mode, keys)
                    } else {
                        None
                    } by {
                    assert(lookup(popup_before, mode, keys) == if mode == Mode::PopUp {
                        lookup(done, mode, keys)
                    } else {
                        None
                    });
                }
                assert forall|mode: Mode, keys: Seq<KeyEvent>| #[trigger]
                    lookup(plugin_bindings@, mode, keys) == if mode != Mode::PopUp {
                        lookup(next, mode, keys)
                    } else {
                        None
                    } by {
                    assert(lookup(plugin_before, mode, keys) == if mode != Mode::PopUp {
                        lookup(done, mode, keys)
                    } else {
                        None
                    });
                }
            }
            i += 1;
        }
        proof {
            assert(all.take(all.len() as int) =~= all);
            assert forall|mode: Mode, keys: Seq<KeyEvent>| #[trigger]
                name_for(popup_bindings@, mode, keys) == if mode == Mode::PopUp {
                    Self::merged_name(custom, mode, keys)
                } else {
                    None
                } by {
                assert(name_for(all, mode, keys) == Self::merged_name(custom, mode, keys));
                assert(lookup(popup_bindings@, mode, keys) == if mode == Mode::PopUp {
                    lookup(all, mode, keys)
                } else {
                    None
                });
            }
            assert forall|mode: Mode, keys: Seq<KeyEvent>| #[trigger]
                name_for(plugin_bindings@, mode, keys) == if mode != Mode::PopUp {
                    Self::merged_name(custom, mode, keys)
                } else {
                    None
                } by {
                assert(name_for(all, mode, keys) == Self::merged_name(custom, mode, keys));
                assert(lookup(plugin_bindings@, mode, keys) == if mode != Mode::PopUp {
                    lookup(all, mode, keys)
                } else {
                    None
                });
            }
        }
        Self { plugin_bindings, popup_bindings, functionality_map }
    }

    /// The name of the plugin.
    pub fn display_details(&self) -> (name: String)
        ensures
            name@ == "Telescope"@,
    {
        "Telescope".to_owned()
    }

    /// A copy of the bindings read outside the overlay.
    pub fn get_plugin_bindings(&self) -> (bindings: Vec<Binding<String>>)
        ensures
            distinct(self.plugin_bindings()) ==> distinct(bindings@),
            forall|mode: Mode, keys: Seq<KeyEvent>| #[trigger]
                lookup(bindings@, mode, keys) == lookup(self.plugin_bindings(), mode, keys),
    {
        copy_bindings(&self.plugin_bindings)
    }

    /// A copy of the bindings read inside the overlay.
    pub fn get_popup_bindings(&self) -> (bindings: Vec<Binding<String>>)
        ensures
            distinct(self.popup_bindings()) ==> distinct(bindings@),
            forall|mode: Mode, keys: Seq<KeyEvent>| #[trigger]
                lookup(bindings@, mode, keys) == lookup(self.popup_bindings(), mode, keys),
    {
        copy_bindings(&self.popup_bindings)
    }

    /// A copy of the functionalities offered, by name.
    pub fn get_functionality_map(&self) -> (functionality_map: Vec<(String, Action)>)
        ensures
            functionality_map@ == self.functionality_map(),
    {
        let mut copy: Vec<(String, Action)> = Vec::new();
        let mut i: usize = 0;
        while i < self.functionality_map.len()
            invariant
                i <= self.functionality_map@.len(),
                copy@ == self.functionality_map@.take(i as int),
            decreases self.functionality_map@.len() - i,
        {
            let entry = &self.functionality_map[i];
            copy.push((entry.0.clone(), entry.1.clone()));
            i += 1;
        }
        proof {
            assert(self.functionality_map@.take(self.functionality_map@.len() as int)
                =~= self.functionality_map@);
        }
        copy
    }
}

} // verus!
