use aui::overlay::settings::{
    clamp_selected, format_keystroke, is_bare_modifier, page_stops, settings_dialog, settings_step, shortcut_control,
    shortcut_pressable, spell_keystroke, step_focus, Keystroke, Modifiers, SettingsAction, SettingsEvent, SettingsRow,
    SettingsSection, ShortcutControl, ShortcutEdit,
};

fn none() -> Modifiers {
    Modifiers { control: false, alt: false, shift: false, platform: false, function: false }
}

fn key(key: &str, modifiers: Modifiers) -> Keystroke {
    Keystroke { modifiers, key: key.to_string() }
}

fn switch(id: &str, on: bool) -> SettingsRow {
    SettingsRow::Switch { id: id.to_string(), label: id.to_string(), detail: None, on }
}

fn shortcut(id: &str, keystroke: Option<&str>, recording: bool, editable: bool) -> SettingsRow {
    SettingsRow::Shortcut {
        id: id.to_string(),
        label: id.to_string(),
        detail: None,
        keystroke: keystroke.map(|k| k.to_string()),
        recording,
        editable,
    }
}

fn page() -> Vec<SettingsRow> {
    vec![
        SettingsRow::Heading { text: "Sidebar".to_string() },
        switch("compact", false),
        SettingsRow::Note { text: "Applies to every window.".to_string() },
        shortcut("palette", Some("cmd-k"), false, true),
        shortcut("quit", Some("cmd-q"), false, false),
    ]
}

#[test]
fn notes_and_headings_are_never_focus_stops() {
    assert_eq!(page_stops(&page()), vec![1, 3, 4]);
    assert!(page_stops(&[SettingsRow::Note { text: "x".to_string() }]).is_empty());
}

#[test]
fn arrows_enter_at_either_end_and_stop_there() {
    assert_eq!(step_focus(None, 3, 1), Some(0));
    assert_eq!(step_focus(None, 3, -1), Some(2));
    assert_eq!(step_focus(Some(0), 3, 1), Some(1));
    assert_eq!(step_focus(Some(2), 3, 1), Some(2));
    assert_eq!(step_focus(Some(0), 3, -1), Some(0));
    assert_eq!(step_focus(Some(7), 3, -1), Some(2));
    assert_eq!(step_focus(Some(1), 0, 1), None);
    assert_eq!(step_focus(None, 0, -1), None);
}

#[test]
fn a_selection_past_the_last_section_clamps_to_it() {
    assert_eq!(clamp_selected(3, 1), 1);
    assert_eq!(clamp_selected(3, 9), 2);
    assert_eq!(clamp_selected(0, 4), 0);
    let section = |id: &str| SettingsSection { id: id.to_string(), label: id.to_string(), rows: Vec::new() };
    assert_eq!(settings_dialog("s", vec![section("a"), section("b")], 5).open_section(), Some(1));
    assert_eq!(settings_dialog("s", Vec::new(), 0).open_section(), None);
}

#[test]
fn keystrokes_spell_modifiers_in_binding_order_and_lowercase() {
    let all = Modifiers { control: true, alt: true, shift: true, platform: true, function: true };
    assert_eq!(format_keystroke(&key("K", all)), "fn-ctrl-alt-cmd-shift-k");
    let cmd_shift = Modifiers { platform: true, shift: true, ..none() };
    assert_eq!(format_keystroke(&key("K", cmd_shift)), "cmd-shift-k");
    assert_eq!(format_keystroke(&key("Enter", none())), "enter");
    assert_eq!(spell_keystroke(&Modifiers { control: true, ..none() }, "x"), "ctrl-x");
}

#[test]
fn only_a_truly_bare_modifier_is_ignored() {
    assert!(is_bare_modifier(&key("", none())));
    assert!(is_bare_modifier(&key("shift", none())));
    assert!(is_bare_modifier(&key("cmd", none())));
    assert!(is_bare_modifier(&key("function", none())));
    assert!(!is_bare_modifier(&key("shift", Modifiers { control: true, ..none() })));
    assert!(!is_bare_modifier(&key("k", none())));
    assert!(is_bare_modifier(&key("", Modifiers { shift: true, ..none() })));
}

#[test]
fn down_and_up_move_the_focus_when_nothing_records() {
    let rows = page();
    let step = settings_step(&rows, None, SettingsEvent::SelectNext);
    assert_eq!(step.focused, Some(0));
    assert!(matches!(step.action, SettingsAction::Idle));
    let step = settings_step(&rows, Some(2), SettingsEvent::SelectNext);
    assert_eq!(step.focused, Some(2));
    let step = settings_step(&rows, None, SettingsEvent::SelectPrev);
    assert_eq!(step.focused, Some(2));
}

#[test]
fn confirm_flips_the_focused_switch_and_presses_an_editable_shortcut() {
    let rows = page();
    match settings_step(&rows, Some(0), SettingsEvent::Confirm).action {
        SettingsAction::Switch { id, on } => {
            assert_eq!(id, "compact");
            assert!(on);
        }
        other => panic!("expected a flip, got {other:?}"),
    }
    match settings_step(&rows, Some(1), SettingsEvent::Confirm).action {
        SettingsAction::Shortcut { id, edit: ShortcutEdit::Record } => assert_eq!(id, "palette"),
        other => panic!("expected a record, got {other:?}"),
    }
    assert!(matches!(settings_step(&rows, Some(2), SettingsEvent::Confirm).action, SettingsAction::Idle));
    assert!(matches!(settings_step(&rows, Some(9), SettingsEvent::Confirm).action, SettingsAction::Idle));
    assert!(matches!(settings_step(&rows, None, SettingsEvent::Confirm).action, SettingsAction::Idle));
}

#[test]
fn escape_and_the_scrim_dismiss_when_nothing_records() {
    let rows = page();
    assert!(matches!(settings_step(&rows, Some(1), SettingsEvent::Cancel).action, SettingsAction::Dismiss));
    assert!(matches!(settings_step(&rows, None, SettingsEvent::Dismiss).action, SettingsAction::Dismiss));
    assert!(matches!(
        settings_step(&rows, None, SettingsEvent::KeyDown(key("k", none()))).action,
        SettingsAction::Idle
    ));
}

#[test]
fn a_recording_row_owns_every_key_and_never_lets_the_dialog_close() {
    let mut rows = page();
    rows[3] = shortcut("palette", Some("cmd-k"), true, true);
    let bind = |event: SettingsEvent| {
        let step = settings_step(&rows, Some(0), event);
        assert_eq!(step.focused, Some(0));
        step.action
    };
    match bind(SettingsEvent::SelectNext) {
        SettingsAction::Shortcut { id, edit: ShortcutEdit::Bind(k) } => {
            assert_eq!(id, "palette");
            assert_eq!(k, "down");
        }
        other => panic!("expected a bind, got {other:?}"),
    }
    match bind(SettingsEvent::SelectPrev) {
        SettingsAction::Shortcut { edit: ShortcutEdit::Bind(k), .. } => assert_eq!(k, "up"),
        other => panic!("expected a bind, got {other:?}"),
    }
    assert!(matches!(bind(SettingsEvent::Confirm), SettingsAction::Pass));
    match bind(SettingsEvent::Cancel) {
        SettingsAction::Shortcut { id, edit: ShortcutEdit::Cancel } => assert_eq!(id, "palette"),
        other => panic!("expected a cancel, got {other:?}"),
    }
    match bind(SettingsEvent::Dismiss) {
        SettingsAction::CancelAndDismiss { id } => assert_eq!(id, "palette"),
        other => panic!("expected a cancel then a dismissal, got {other:?}"),
    }
    let cmd = Modifiers { platform: true, ..none() };
    match bind(SettingsEvent::KeyDown(key("P", cmd))) {
        SettingsAction::Shortcut { edit: ShortcutEdit::Bind(k), .. } => assert_eq!(k, "cmd-p"),
        other => panic!("expected a bind, got {other:?}"),
    }
    assert!(matches!(bind(SettingsEvent::KeyDown(key("shift", none()))), SettingsAction::Idle));
}

#[test]
fn a_shortcut_row_draws_one_control_for_its_state() {
    assert!(matches!(shortcut_control(&Some("cmd-k".to_string()), true, true), ShortcutControl::Recording));
    assert!(matches!(shortcut_control(&Some("cmd-q".to_string()), false, false), ShortcutControl::Reserved(Some(ref k)) if k == "cmd-q"));
    assert!(matches!(shortcut_control(&None, false, false), ShortcutControl::Reserved(None)));
    assert!(matches!(shortcut_control(&Some("cmd-k".to_string()), false, true), ShortcutControl::Bound(ref k) if k == "cmd-k"));
    assert!(matches!(shortcut_control(&None, false, true), ShortcutControl::Unassigned));
    assert!(shortcut_pressable(false, true));
    assert!(!shortcut_pressable(true, true));
    assert!(!shortcut_pressable(false, false));
}
