use aui::composer::menus::{row_visible, MenuScroll, ScrollAsk};
use aui::composer::queue::{queue_actions, queue_badge, queue_row, queue_strip, suggestion_chips, QueueIntent, QueueStripRow};

#[test]
fn a_new_target_scrolls_until_it_is_seen_then_stays_put() {
    let start = MenuScroll::new();
    let (kept, ask) = start.step(4, false);
    assert_eq!(ask, ScrollAsk::ScrollTo(4));
    assert!(!kept.settled);
    let (kept, ask) = kept.step(4, false);
    assert_eq!(ask, ScrollAsk::ScrollTo(4));
    let (kept, ask) = kept.step(4, true);
    assert_eq!(ask, ScrollAsk::Nothing);
    assert!(kept.settled);
    let (same, ask) = kept.step(4, false);
    assert_eq!((same, ask), (kept, ScrollAsk::Nothing));
    let (moved, ask) = same.step(5, true);
    assert_eq!(ask, ScrollAsk::Nothing);
    assert_eq!(moved.target, 5);
    assert!(moved.settled);
}

#[test]
fn a_row_is_visible_only_when_measured_and_between_the_ends() {
    assert!(row_visible(true, 2, 6, 4));
    assert!(row_visible(true, 2, 6, 2));
    assert!(!row_visible(true, 2, 6, 7));
    assert!(!row_visible(false, 2, 6, 4));
}

#[test]
fn the_strip_shows_its_rows_in_server_order() {
    let strip = queue_strip(
        "q",
        vec![QueueStripRow::new("t2", "second"), QueueStripRow::new("t1", "first").editing(), QueueStripRow::new("t3", "third")],
    );
    assert_eq!(strip.shown(), vec!["t2".to_string(), "t1".to_string(), "t3".to_string()]);
    assert_eq!(strip.caption(), "Queued \u{b7} 3");
    assert!(strip.rows[1].editing);
    assert_eq!(queue_strip("q", Vec::new()).caption(), "Queued \u{b7} 0");
}

#[test]
fn queued_rows_badge_and_actions() {
    assert_eq!(queue_badge(false), "queued");
    assert_eq!(queue_badge(true), "editing");
    assert!(queue_row("r", "hi").editing().editing);
    assert_eq!(queue_actions(), vec![QueueIntent::Steer, QueueIntent::Edit, QueueIntent::Remove]);
    let chips = suggestion_chips("s", vec!["Run tests".to_string(), "Explain".to_string()]);
    assert!(chips.sparkles(0));
    assert!(!chips.sparkles(1));
    assert!(chips.at_rest().at_rest);
}

use aui::composer::composer::{composer, ComposerChip, ComposerChipKind, ComposerFrame, ComposerIntent};
use aui::composer::pickers::{effort_menu, model_menu, mode_menu, PickerMark, PickerRow};

#[test]
fn the_composer_frames_itself_by_dock_and_focus() {
    let c = composer("c", "muse-spark");
    assert_eq!(c.mode, "Plan");
    assert_eq!(c.frame(), ComposerFrame::Resting);
    assert_eq!(composer("c", "m").focused(true).frame(), ComposerFrame::Focused);
    assert_eq!(composer("c", "m").focused(true).docked(true).frame(), ComposerFrame::Docked);
    assert_eq!(c.mode_chip(), (true, true));
    assert_eq!(composer("c", "m").docked(true).mode_chip(), (false, false));
}

#[test]
fn the_toolbar_notes_context_and_sends_or_stops() {
    assert_eq!(composer("c", "m").context_text(), None);
    assert_eq!(composer("c", "m").context_percent(62).context_text().as_deref(), Some("context 62%"));
    assert_eq!(composer("c", "m").send(), (true, ComposerIntent::Send));
    assert_eq!(composer("c", "m").can_send(false).send(), (false, ComposerIntent::Send));
    assert_eq!(composer("c", "m").can_send(false).streaming(true).send(), (true, ComposerIntent::Stop));
}

#[test]
fn only_removable_chips_report_their_removal() {
    let chips = vec![
        ComposerChip { id: "m1".to_string(), kind: ComposerChipKind::Mention, label: "src".to_string(), removable: true },
        ComposerChip { id: "s1".to_string(), kind: ComposerChipKind::Skill, label: "tests".to_string(), removable: false },
    ];
    let c = composer("c", "m").chips(chips);
    assert_eq!(c.remove_intent(0), Some(ComposerIntent::RemoveChip("m1".to_string())));
    assert_eq!(c.remove_intent(1), None);
}

#[test]
fn pickers_check_the_keyboard_row_and_let_the_pointer_hold_the_highlight() {
    let rows = vec![
        PickerRow::new("a", "muse-spark-1.3", "Fast").badge("default").badge("active"),
        PickerRow::new("b", "muse-max", "Deep").badge("active"),
        PickerRow::new("c", "muse-mini", ""),
    ];
    let menu = model_menu("m", rows, 1, true);
    assert_eq!(menu.title, "Model");
    let marks = menu.marks(None);
    assert_eq!(
        marks,
        vec![
            PickerMark { highlighted: false, checked: false },
            PickerMark { highlighted: true, checked: true },
            PickerMark { highlighted: false, checked: false },
        ]
    );
    let hovered = menu.marks(Some(2));
    assert!(hovered[2].highlighted && !hovered[1].highlighted && hovered[1].checked);
    assert_eq!(effort_menu("e", Vec::new(), 0, false).title, "Reasoning effort");
    assert_eq!(mode_menu("o", Vec::new(), 0, false).title("Ask first").title, "Ask first");
}

use aui::composer::menu::{plus_menu, PlusMenuItem};

#[test]
fn the_plus_menu_keeps_its_items_in_order() {
    let menu = plus_menu(
        "p",
        vec![PlusMenuItem::new("attach", "paperclip", "Attach files").key("⌘U"), PlusMenuItem::new("skill", "sparkle", "Use a skill")],
        true,
    )
    .at_rest();
    assert!(menu.open && menu.at_rest);
    let ids: Vec<&str> = menu.items.iter().map(|i| i.id.as_str()).collect();
    assert_eq!(ids, vec!["attach", "skill"]);
    assert_eq!(menu.items[0].key.as_deref(), Some("⌘U"));
    assert!(menu.items[1].key.is_none());
}
