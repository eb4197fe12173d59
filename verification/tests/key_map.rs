use telescope::action::Action;
use telescope::key_event::{
    normalized_keys, KeyCode, KeyEvent, KeyEventKind, KeyEventState, KeyModifiers, MediaKeyCode,
    ModifierKeyCode,
};
use telescope::key_map::{KeyMapNode, KeyProcessingResult};
use telescope::mode::Mode;
use telescope::plugin_action::PluginAction;
use telescope::simple_input_machine::{
    default_key_map, process_telescope_keys, TelescopeInputMachine,
};
use telescope::telescope_commands::{
    Command, TelescopeConfirmResult, TelescopeDropSearchChar, TelescopeNextResult,
    TelescopePreviousResult, TelescopePushSearchChar, TelescopeQuit,
};

fn plain(code: KeyCode) -> KeyEvent {
    KeyEvent::new(code, KeyModifiers::none())
}

fn ctrl(ch: char) -> KeyEvent {
    KeyEvent::new(KeyCode::Char(ch), KeyModifiers::control())
}

fn act(command: Command) -> Action {
    Action::PluginAct(PluginAction::new(command))
}

#[test]
fn modifiers_are_told_apart() {
    let none = KeyModifiers {
        shift: false,
        control: false,
        alt: false,
        super_key: false,
        hyper: false,
        meta: false,
    };
    assert_eq!(KeyModifiers::none(), none);
    assert_eq!(KeyModifiers::control(), KeyModifiers { control: true, ..none });
    assert_ne!(ctrl('n'), plain(KeyCode::Char('n')));
    assert_eq!(plain(KeyCode::Esc).code, KeyCode::Esc);
}

#[test]
fn new_key_event_is_a_press_with_nothing_else_reported() {
    let key = plain(KeyCode::Char('q'));
    assert_eq!(key.kind, KeyEventKind::Press);
    assert_eq!(key.state, KeyEventState::none());
    assert_eq!(
        key.state,
        KeyEventState { keypad: false, caps_lock: false, num_lock: false }
    );
    let release = KeyEvent::new_with_kind_and_state(
        KeyCode::Media(MediaKeyCode::Play),
        KeyModifiers::control(),
        KeyEventKind::Release,
        KeyEventState { keypad: true, caps_lock: false, num_lock: true },
    );
    assert_eq!(release.code, KeyCode::Media(MediaKeyCode::Play));
    assert_eq!(release.modifiers, KeyModifiers::control());
    assert_eq!(release.kind, KeyEventKind::Release);
    assert!(release.state.keypad && release.state.num_lock && !release.state.caps_lock);
    assert_ne!(
        KeyEvent::new(KeyCode::Modifier(ModifierKeyCode::LeftShift), KeyModifiers::none()),
        KeyEvent::new(KeyCode::Modifier(ModifierKeyCode::RightShift), KeyModifiers::none())
    );
}

#[test]
fn normal_form_holds_shift_exactly_with_an_upper_case_letter() {
    let shift = KeyModifiers { shift: true, ..KeyModifiers::none() };
    let shift_control = KeyModifiers { shift: true, control: true, ..KeyModifiers::none() };
    assert_eq!(
        plain(KeyCode::Char('A')).normalize_case(),
        KeyEvent::new(KeyCode::Char('A'), shift)
    );
    assert_eq!(
        KeyEvent::new(KeyCode::Char('A'), shift).normalize_case(),
        KeyEvent::new(KeyCode::Char('A'), shift)
    );
    assert_eq!(
        KeyEvent::new(KeyCode::Char('a'), shift).normalize_case(),
        KeyEvent::new(KeyCode::Char('A'), shift)
    );
    assert_eq!(
        KeyEvent::new(KeyCode::Char('z'), shift_control).normalize_case(),
        KeyEvent::new(KeyCode::Char('Z'), shift_control)
    );
    assert_eq!(ctrl('Z').normalize_case(), KeyEvent::new(KeyCode::Char('Z'), shift_control));
    assert_eq!(plain(KeyCode::Char('a')).normalize_case(), plain(KeyCode::Char('a')));
    assert_eq!(
        KeyEvent::new(KeyCode::Char('1'), shift).normalize_case(),
        KeyEvent::new(KeyCode::Char('1'), shift)
    );
    assert_eq!(
        KeyEvent::new(KeyCode::Char('é'), shift).normalize_case(),
        KeyEvent::new(KeyCode::Char('é'), shift)
    );
    assert_eq!(
        KeyEvent::new(KeyCode::Char('{'), shift).normalize_case(),
        KeyEvent::new(KeyCode::Char('{'), shift)
    );
    assert_eq!(
        KeyEvent::new(KeyCode::Char('`'), shift).normalize_case(),
        KeyEvent::new(KeyCode::Char('`'), shift)
    );
    assert_eq!(
        KeyEvent::new(KeyCode::Enter, shift).normalize_case(),
        KeyEvent::new(KeyCode::Enter, shift)
    );
    let release = KeyEvent::new_with_kind_and_state(
        KeyCode::Char('b'),
        shift,
        KeyEventKind::Release,
        KeyEventState { keypad: false, caps_lock: true, num_lock: false },
    );
    let normal = release.normalize_case();
    assert_eq!(normal.code, KeyCode::Char('B'));
    assert_eq!(normal.kind, KeyEventKind::Release);
    assert_eq!(normal.state, release.state);
    assert_eq!(normal.normalize_case(), normal);
    assert_eq!(
        normalized_keys(&vec![plain(KeyCode::Char('A')), plain(KeyCode::Esc)]),
        vec![KeyEvent::new(KeyCode::Char('A'), shift), plain(KeyCode::Esc)]
    );
}

#[test]
fn matcher_takes_the_key_in_its_normal_form() {
    let shift = KeyModifiers { shift: true, ..KeyModifiers::none() };
    let mut keymap: KeyMapNode<Action> = KeyMapNode::new();
    keymap.add_sequence(
        vec![KeyEvent::new(KeyCode::Char('G'), shift)],
        act(Command::Quit(TelescopeQuit::new())),
    );
    for typed in [
        plain(KeyCode::Char('G')),
        KeyEvent::new(KeyCode::Char('G'), shift),
        KeyEvent::new(KeyCode::Char('g'), shift),
    ] {
        let mut pending = Vec::new();
        assert_eq!(
            process_telescope_keys(&keymap, &mut pending, typed),
            KeyProcessingResult::Complete(act(Command::Quit(TelescopeQuit::new())))
        );
    }
    let mut pending = Vec::new();
    assert_eq!(
        process_telescope_keys(&keymap, &mut pending, plain(KeyCode::Char('g'))),
        KeyProcessingResult::Invalid
    );
    let release = KeyEvent::new_with_kind_and_state(
        KeyCode::Char('G'),
        shift,
        KeyEventKind::Release,
        KeyEventState::none(),
    );
    assert_eq!(
        process_telescope_keys(&keymap, &mut pending, release),
        KeyProcessingResult::Invalid
    );
}

#[test]
fn new_trie_holds_only_its_root() {
    let root: KeyMapNode<u8> = KeyMapNode::new();
    assert!(root.action.is_none());
    assert!(root.children.is_empty());
    assert!(root.get_node(&vec![]).is_some());
    assert!(root.get_node(&vec![plain(KeyCode::Esc)]).is_none());
}

#[test]
fn add_sequence_binds_the_whole_sequence_and_makes_its_starts_paths() {
    let mut root: KeyMapNode<u8> = KeyMapNode::new();
    let g = plain(KeyCode::Char('g'));
    let d = plain(KeyCode::Char('d'));
    root.add_sequence(vec![g, d], 7);
    assert_eq!(root.get_node(&vec![g, d]).unwrap().action, Some(7));
    assert_eq!(root.get_node(&vec![g]).unwrap().action, None);
    assert!(root.get_node(&vec![d]).is_none());
    assert!(root.get_node(&vec![g, g]).is_none());
    assert!(root.get_node(&vec![g, d, d]).is_none());
}

#[test]
fn add_sequence_replaces_a_binding_and_keeps_the_others() {
    let mut root: KeyMapNode<u8> = KeyMapNode::new();
    let g = plain(KeyCode::Char('g'));
    let d = plain(KeyCode::Char('d'));
    let e = plain(KeyCode::Char('e'));
    root.add_sequence(vec![g, d], 1);
    root.add_sequence(vec![g, e], 2);
    root.add_sequence(vec![g], 3);
    root.add_sequence(vec![g, d], 4);
    assert_eq!(root.get_node(&vec![g, d]).unwrap().action, Some(4));
    assert_eq!(root.get_node(&vec![g, e]).unwrap().action, Some(2));
    assert_eq!(root.get_node(&vec![g]).unwrap().action, Some(3));
    assert_eq!(root.children.len(), 1);
}

#[test]
fn add_empty_sequence_binds_the_root() {
    let mut root: KeyMapNode<u8> = KeyMapNode::new();
    root.add_sequence(vec![], 9);
    assert_eq!(root.action, Some(9));
    assert_eq!(root.get_node(&vec![]).unwrap().action, Some(9));
}

#[test]
fn default_table_completes_each_of_its_five_keys() {
    let keymap = default_key_map();
    let cases = vec![
        (plain(KeyCode::Esc), Command::Quit(TelescopeQuit::new())),
        (ctrl('n'), Command::NextResult(TelescopeNextResult::new())),
        (ctrl('p'), Command::PreviousResult(TelescopePreviousResult::new())),
        (
            plain(KeyCode::Backspace),
            Command::DropSearchChar(TelescopeDropSearchChar::new()),
        ),
        (
            plain(KeyCode::Enter),
            Command::ConfirmResult(TelescopeConfirmResult::new()),
        ),
    ];
    for (key, command) in cases {
        let mut pending = Vec::new();
        let result = process_telescope_keys(&keymap, &mut pending, key);
        assert_eq!(result, KeyProcessingResult::Complete(act(command)));
        assert!(pending.is_empty());
    }
}

#[test]
fn unbound_printable_character_is_invalid_and_falls_back_to_insertion() {
    let keymap = default_key_map();
    let mut pending = Vec::new();
    let x = plain(KeyCode::Char('x'));
    let result = process_telescope_keys(&keymap, &mut pending, x);
    assert_eq!(result, KeyProcessingResult::Invalid);
    assert!(pending.is_empty());
    let machine = TelescopeInputMachine::new();
    assert_eq!(
        machine.get_default_action(&Mode::Normal, x),
        Some(act(Command::PushSearchChar(TelescopePushSearchChar::new('x'))))
    );
    assert_eq!(telescope::default_popup_action(x), machine.get_default_action(&Mode::Normal, x));
}

#[test]
fn plain_n_is_not_the_bound_ctrl_n() {
    let keymap = default_key_map();
    let mut pending = Vec::new();
    let result = process_telescope_keys(&keymap, &mut pending, plain(KeyCode::Char('n')));
    assert_eq!(result, KeyProcessingResult::Invalid);
}

#[test]
fn fallback_is_none_for_keys_that_print_nothing() {
    let machine = TelescopeInputMachine::new();
    assert_eq!(machine.get_default_action(&Mode::Normal, plain(KeyCode::Left)), None);
    assert_eq!(machine.get_default_action(&Mode::PopUp, plain(KeyCode::Enter)), None);
    assert_eq!(telescope::default_popup_action(plain(KeyCode::Tab)), None);
}

#[test]
fn fallback_inserts_a_printed_character_in_every_mode() {
    let machine = TelescopeInputMachine::new();
    let x = plain(KeyCode::Char('x'));
    let insertion = Some(act(Command::PushSearchChar(TelescopePushSearchChar::new('x'))));
    for mode in [Mode::Normal, Mode::Search, Mode::Command, Mode::PopUp, Mode::Visual] {
        assert_eq!(machine.get_default_action(&mode, x), insertion);
    }
    assert_eq!(telescope::default_popup_action(x), insertion);
}

#[test]
fn first_key_of_a_two_key_sequence_is_incomplete_and_stays_pending() {
    let mut keymap = default_key_map();
    let g = plain(KeyCode::Char('g'));
    let q = plain(KeyCode::Char('q'));
    keymap.add_sequence(vec![g, q], act(Command::Quit(TelescopeQuit::new())));
    let mut pending = Vec::new();
    let first = process_telescope_keys(&keymap, &mut pending, g);
    assert_eq!(first, KeyProcessingResult::Incomplete);
    assert_eq!(pending, vec![g]);
    let second = process_telescope_keys(&keymap, &mut pending, q);
    assert_eq!(
        second,
        KeyProcessingResult::Complete(act(Command::Quit(TelescopeQuit::new())))
    );
    assert!(pending.is_empty());
}

#[test]
fn wrong_second_key_is_invalid_and_clears_the_pending_keys() {
    let mut keymap = default_key_map();
    let g = plain(KeyCode::Char('g'));
    let q = plain(KeyCode::Char('q'));
    keymap.add_sequence(vec![g, q], act(Command::Quit(TelescopeQuit::new())));
    let mut pending = Vec::new();
    process_telescope_keys(&keymap, &mut pending, g);
    let result = process_telescope_keys(&keymap, &mut pending, g);
    assert_eq!(result, KeyProcessingResult::Invalid);
    assert!(pending.is_empty());
}

#[test]
fn a_bound_start_of_a_longer_sequence_completes_at_once() {
    let mut keymap: KeyMapNode<Action> = KeyMapNode::new();
    let g = plain(KeyCode::Char('g'));
    let q = plain(KeyCode::Char('q'));
    keymap.add_sequence(vec![g, q], act(Command::Quit(TelescopeQuit::new())));
    keymap.add_sequence(vec![g], act(Command::NextResult(TelescopeNextResult::new())));
    let mut pending = Vec::new();
    let result = process_telescope_keys(&keymap, &mut pending, g);
    assert_eq!(
        result,
        KeyProcessingResult::Complete(act(Command::NextResult(TelescopeNextResult::new())))
    );
    assert!(pending.is_empty());
}

#[test]
fn machine_processes_keys_in_normal_mode() {
    let mut machine = TelescopeInputMachine::new();
    let mut pending = Vec::new();
    let result = machine.process_keys(&Mode::Normal, &mut pending, plain(KeyCode::Esc));
    assert_eq!(
        result,
        KeyProcessingResult::Complete(act(Command::Quit(TelescopeQuit::new())))
    );
    assert_eq!(machine.keymap_nodes.len(), 1);
    assert_eq!(machine.keymap_nodes[0].0, Mode::Normal);
}

#[test]
fn plugin_action_hands_out_its_command() {
    let action = PluginAction::new(Command::PushSearchChar(TelescopePushSearchChar::new('q')));
    assert_eq!(
        action.get_command(),
        Command::PushSearchChar(TelescopePushSearchChar::new('q'))
    );
    assert_eq!(action.clone(), action);
}

#[test]
fn clone_of_a_trie_has_the_same_paths_and_bindings() {
    let mut root: KeyMapNode<u8> = KeyMapNode::new();
    let g = plain(KeyCode::Char('g'));
    let d = plain(KeyCode::Char('d'));
    root.add_sequence(vec![g, d], 1);
    root.add_sequence(vec![d], 2);
    let copy = root.clone();
    assert_eq!(copy, root);
    assert_eq!(copy.get_node(&vec![g, d]).unwrap().action, Some(1));
    assert_eq!(copy.get_node(&vec![d]).unwrap().action, Some(2));
    assert_eq!(copy.get_node(&vec![g]).unwrap().action, None);
    assert!(copy.get_node(&vec![d, g]).is_none());
}

#[test]
fn clone_of_a_machine_resolves_keys_as_the_machine_does() {
    let machine = TelescopeInputMachine::new();
    let mut copy = machine.clone();
    assert_eq!(copy, machine);
    let mut pending = Vec::new();
    assert_eq!(
        copy.process_keys(&Mode::Normal, &mut pending, ctrl('n')),
        KeyProcessingResult::Complete(act(Command::NextResult(TelescopeNextResult::new())))
    );
}

#[test]
fn key_bound_out_of_its_normal_form_is_found_by_lookup_and_matcher() {
    let shift = KeyModifiers { shift: true, ..KeyModifiers::none() };
    for bound in [
        plain(KeyCode::Char('A')),
        KeyEvent::new(KeyCode::Char('a'), shift),
        KeyEvent::new(KeyCode::Char('A'), shift),
    ] {
        let mut keymap: KeyMapNode<Action> = KeyMapNode::new();
        keymap.add_sequence(vec![bound], act(Command::Quit(TelescopeQuit::new())));
        assert!(keymap.get_node(&vec![bound]).unwrap().action.is_some());
        for typed in [
            plain(KeyCode::Char('A')),
            KeyEvent::new(KeyCode::Char('a'), shift),
            KeyEvent::new(KeyCode::Char('A'), shift),
        ] {
            assert!(keymap.get_node(&vec![typed]).is_some());
            let mut pending = Vec::new();
            assert_eq!(
                process_telescope_keys(&keymap, &mut pending, typed),
                KeyProcessingResult::Complete(act(Command::Quit(TelescopeQuit::new())))
            );
            assert!(pending.is_empty());
        }
        assert!(keymap.get_node(&vec![plain(KeyCode::Char('a'))]).is_none());
        assert_eq!(keymap.children.len(), 1);
        assert_eq!(keymap.children[0].0, KeyEvent::new(KeyCode::Char('A'), shift));
    }
}

#[test]
fn key_bound_alone_and_as_a_start_completes_at_once_in_any_form() {
    let shift = KeyModifiers { shift: true, ..KeyModifiers::none() };
    let k = plain(KeyCode::Char('K'));
    let k2 = KeyEvent::new(KeyCode::Char('x'), shift);
    let mut keymap: KeyMapNode<Action> = KeyMapNode::new();
    keymap.add_sequence(vec![k, k2], act(Command::NextResult(TelescopeNextResult::new())));
    keymap.add_sequence(vec![k], act(Command::Quit(TelescopeQuit::new())));
    let mut pending = Vec::new();
    assert_eq!(
        process_telescope_keys(&keymap, &mut pending, k),
        KeyProcessingResult::Complete(act(Command::Quit(TelescopeQuit::new())))
    );
    assert!(pending.is_empty());
    assert_eq!(
        keymap.get_node(&vec![k, k2]).unwrap().action,
        Some(act(Command::NextResult(TelescopeNextResult::new())))
    );
}

#[test]
fn pending_keys_are_kept_as_they_were_pressed() {
    let k = plain(KeyCode::Char('K'));
    let x = plain(KeyCode::Char('x'));
    let mut keymap: KeyMapNode<Action> = KeyMapNode::new();
    keymap.add_sequence(vec![k, x], act(Command::Quit(TelescopeQuit::new())));
    let mut pending = Vec::new();
    assert_eq!(
        process_telescope_keys(&keymap, &mut pending, k),
        KeyProcessingResult::Incomplete
    );
    assert_eq!(pending, vec![k]);
    assert_eq!(
        process_telescope_keys(&keymap, &mut pending, x),
        KeyProcessingResult::Complete(act(Command::Quit(TelescopeQuit::new())))
    );
}
