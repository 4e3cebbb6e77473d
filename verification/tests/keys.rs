use aui::keys::{
    default_bindings, dismiss_context, KeyAction, KeyboardNav, APPROVAL_CONTEXT, MENU_CONTEXT, ROOT_CONTEXT,
};

#[test]
fn escape_closes_whatever_holds_the_keyboard() {
    assert_eq!(dismiss_context(), "AuiMenu || AuiApproval || AuiRoot");
    let escape = default_bindings().into_iter().find(|b| b.keys == "escape").expect("escape is bound");
    assert_eq!(escape.action, KeyAction::Cancel);
    assert_eq!(escape.context.as_deref(), Some("AuiMenu || AuiApproval || AuiRoot"));
}

#[test]
fn the_default_keymap_matches_the_table() {
    let table: Vec<(String, KeyAction, Option<String>)> =
        default_bindings().into_iter().map(|b| (b.keys, b.action, b.context)).collect();
    let menu = Some(MENU_CONTEXT.to_string());
    let approval = Some(APPROVAL_CONTEXT.to_string());
    let root = Some(ROOT_CONTEXT.to_string());
    assert_eq!(
        table,
        vec![
            ("cmd-b".to_string(), KeyAction::ToggleSidebar, None),
            ("cmd-k".to_string(), KeyAction::TogglePalette, None),
            ("cmd-\\".to_string(), KeyAction::ToggleRightPane, None),
            ("up".to_string(), KeyAction::SelectPrev, menu.clone()),
            ("down".to_string(), KeyAction::SelectNext, menu.clone()),
            ("enter".to_string(), KeyAction::Confirm, menu),
            ("escape".to_string(), KeyAction::Cancel, Some(dismiss_context())),
            ("y".to_string(), KeyAction::ApproveOnce, approval.clone()),
            ("a".to_string(), KeyAction::ApproveAlways, approval.clone()),
            ("n".to_string(), KeyAction::Deny, approval),
            ("tab".to_string(), KeyAction::FocusNext, root.clone()),
            ("shift-tab".to_string(), KeyAction::FocusPrev, root),
        ]
    );
}

#[test]
fn keys_arm_the_focus_ring_and_the_mouse_disarms_it() {
    let mut nav = KeyboardNav::new();
    assert!(!nav.keyboard_nav());
    nav.key_down();
    assert!(nav.keyboard_nav());
    nav.pointer_down();
    assert!(!nav.keyboard_nav());
    nav.set_keyboard_nav(true);
    assert!(nav.keyboard_nav());
}
