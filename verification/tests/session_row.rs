use aui::ink::InkRole;
use aui::nav::rows::{
    context_line_kind, project_branch_text, second_line_kind, ContextLineKind, SecondLineKind,
};
use aui::nav::types::{ActivityKind, AgentState, MetaItem, RowStatus, RowStatusKind, SessionSummary};

fn summary(id: &str) -> SessionSummary {
    SessionSummary::new(id, id, AgentState::Idle, "1h")
}

fn four_states() -> [SessionSummary; 4] {
    [
        summary("blank"),
        summary("titling").placeholder("Working…"),
        summary("preview").preview("Fixed the flaky checkout test"),
        summary("byline").byline("tighten address validation", "patched the validator"),
    ]
}

#[test]
fn every_state_reserves_exactly_one_second_line() {
    let kinds: Vec<SecondLineKind> = four_states().iter().map(second_line_kind).collect();
    assert_eq!(
        kinds,
        vec![SecondLineKind::Empty, SecondLineKind::Placeholder, SecondLineKind::Preview, SecondLineKind::Byline],
        "each state maps to its own kind"
    );
    for kind in kinds {
        assert_eq!(kind.lines(), 1, "{kind:?} keeps one second line");
    }
    assert_eq!(second_line_kind(&summary("none")), SecondLineKind::Empty);
    assert_eq!(second_line_kind(&summary("empty").preview("")), SecondLineKind::Preview);
    assert_eq!(second_line_kind(&summary("empty2").placeholder("")), SecondLineKind::Placeholder);
    assert_eq!(second_line_kind(&summary("empty3").byline("", "")), SecondLineKind::Byline);
}

#[test]
fn legacy_meta_tags_keep_their_second_line() {
    assert_eq!(second_line_kind(&summary("repo").repo("acme-web")), SecondLineKind::Meta);
    assert_eq!(
        second_line_kind(&summary("meta").meta(MetaItem::Text("PR #2491 open".to_string()))),
        SecondLineKind::Meta
    );
    assert_eq!(
        second_line_kind(&summary("activity").activity(ActivityKind::Working, "running tests")),
        SecondLineKind::Meta
    );
    assert_eq!(second_line_kind(&summary("pinned").pinned()), SecondLineKind::Meta);
    assert_eq!(
        second_line_kind(&summary("both").meta(MetaItem::Text("PR #2491 open".to_string())).preview("new words")),
        SecondLineKind::Preview
    );
}

#[test]
fn the_second_line_truncates_and_never_wraps() {
    let long = "tighten address validation and add coverage for non-US postal codes across every checkout form";
    let titling = format!("{long}…");
    let states = [
        summary("blank"),
        summary("titling").placeholder(&titling),
        summary("preview").preview(long),
        summary("byline").byline(long, long),
    ];
    for s in &states {
        let kind = second_line_kind(s);
        assert!(kind.truncate(), "{kind:?} ellipsizes at the row's width");
        assert!(!kind.wraps(), "{kind:?} never wraps to a third line");
    }
}

#[test]
fn placeholder_is_dimmer_than_preview_in_both_themes() {
    // The roles are the same in every theme; the theme maps them to colours.
    assert_eq!(SecondLineKind::Placeholder.ink(), InkRole::Ink4, "placeholder ink");
    assert_eq!(SecondLineKind::Preview.ink(), InkRole::Ink3, "preview ink");
    assert_eq!(SecondLineKind::Byline.ink(), InkRole::Ink3, "byline result ink");
    assert_ne!(SecondLineKind::Placeholder.ink(), SecondLineKind::Preview.ink(), "placeholder differs from preview");
}

#[test]
fn context_line_priority_is_attention_byline_preview_project_meta_empty() {
    assert_eq!(context_line_kind(&summary("none")), ContextLineKind::Empty);
    assert_eq!(
        context_line_kind(&summary("meta").meta(MetaItem::Text("PR #2491 open".to_string()))),
        ContextLineKind::Meta
    );
    assert_eq!(context_line_kind(&summary("proj").repo("acme-web").branch("main")), ContextLineKind::Project);
    assert_eq!(context_line_kind(&summary("proj-only").branch("main")), ContextLineKind::Project);
    assert_eq!(context_line_kind(&summary("prev").preview("Fixed it")), ContextLineKind::Preview);
    assert_eq!(context_line_kind(&summary("ph").placeholder("Working…")), ContextLineKind::Placeholder);
    assert_eq!(context_line_kind(&summary("bl").byline("ask", "result")), ContextLineKind::Byline);
    assert_eq!(
        context_line_kind(
            &summary("att").byline("ask", "result").preview("x").repo("p").attention("sudo apt install notifierd")
        ),
        ContextLineKind::Attention
    );
    assert_eq!(
        context_line_kind(&summary("both").preview("new words").byline("ask", "result")),
        ContextLineKind::Byline
    );
    assert_eq!(context_line_kind(&summary("bp").repo("acme-web").byline("ask", "result")), ContextLineKind::Byline);
    assert_eq!(project_branch_text(&summary("none")), None);
    assert_eq!(
        project_branch_text(&summary("pb").repo("acme-web").branch("feature/checkout-flow-v2")),
        Some("acme-web · feature/checkout-flow-v2".to_string())
    );
}

#[test]
fn status_vocabulary_and_colours_come_from_tokens() {
    let text = |kind: RowStatusKind, detail: &str| RowStatus::new(kind, detail).text();
    assert_eq!(text(RowStatusKind::Working, "14m"), "Working · 14m");
    assert_eq!(text(RowStatusKind::NeedsApproval, ""), "Needs approval");
    assert_eq!(text(RowStatusKind::Asked, "Which bucket for staging?"), "Asked: \"Which bucket for staging?\"");
    assert_eq!(text(RowStatusKind::Settled, "12m · 5 turns"), "Settled · 12m · 5 turns");
    assert_eq!(text(RowStatusKind::Failed, "1h"), "Failed · 1h");
    assert_eq!(text(RowStatusKind::NoReply, ""), "No reply yet");
    assert_eq!(text(RowStatusKind::NoReply, "2d"), "No reply yet · 2d");
    assert_eq!(RowStatus::new(RowStatusKind::Working, "14m").ink(), InkRole::AccentInk, "working ink");
    assert_eq!(RowStatus::new(RowStatusKind::NeedsApproval, "").ink(), InkRole::Warning, "approval ink");
    assert_eq!(RowStatus::new(RowStatusKind::Asked, "q").ink(), InkRole::Warning, "asked ink");
    assert_eq!(RowStatus::new(RowStatusKind::Settled, "x").ink(), InkRole::Ink3, "settled ink");
    assert_eq!(RowStatus::new(RowStatusKind::Failed, "x").ink(), InkRole::Danger, "failed ink");
    assert_eq!(RowStatus::new(RowStatusKind::NoReply, "").ink(), InkRole::Ink3, "no-reply ink");
}

#[test]
fn option_b_rows_share_one_height_in_every_state() {
    let states = vec![
        summary("working").repo("acme-web").branch("feature/checkout-flow-v2").status(RowStatusKind::Working, "14m"),
        summary("approval").attention("sudo apt install notifierd").status(RowStatusKind::NeedsApproval, ""),
        summary("asked").preview("Refresh the session tokens").status(RowStatusKind::Asked, "Which bucket for staging?"),
        summary("settled")
            .byline("Draft the cart recovery email", "Drafted three variants")
            .status(RowStatusKind::Settled, "12m · 5 turns"),
        summary("failed").byline("Add the observability tiles", "2 tests failed").status(RowStatusKind::Failed, "1h"),
        summary("empty").repo("acme-internal").branch("fix/webhook-retry").status(RowStatusKind::NoReply, "2d"),
        summary("blank"),
    ];
    for s in &states {
        let context = context_line_kind(s);
        assert_eq!(context.lines(), 1, "{context:?} keeps one context line");
        assert!(context.truncate(), "{context:?} ellipsizes at the row's width");
        assert!(!context.wraps(), "{context:?} never wraps");
    }
}

use aui::ink::PaletteRole;
use aui::nav::rows::{action_tray, compact_session_row, row_ground, session_row, tray_tip, RowAction, TrayButton};

#[test]
fn the_full_tray_is_drawn_unless_the_caller_names_a_subset() {
    let row = session_row("r", summary("a"));
    let tray = row.tray();
    let actions: Vec<RowAction> = tray.iter().map(|b| b.action).collect();
    assert_eq!(actions, vec![RowAction::Terminal, RowAction::Browser, RowAction::Pin, RowAction::More]);
    let named = session_row("r", summary("a").pinned()).actions(vec![RowAction::Pin, RowAction::Archive]).tray();
    assert_eq!(
        named,
        vec![TrayButton { action: RowAction::Pin, unpin: true }, TrayButton { action: RowAction::Archive, unpin: false }]
    );
    assert!(session_row("r", summary("a")).show_actions(false).tray().is_empty());
    assert!(!session_row("r", summary("a")).show_actions(false).tray_visible(true));
}

#[test]
fn the_pin_names_what_it_will_do() {
    assert_eq!(tray_tip(RowAction::Pin, false), Some("Pin"));
    assert_eq!(tray_tip(RowAction::Pin, true), Some("Unpin"));
    assert_eq!(tray_tip(RowAction::More, true), None);
    assert_eq!(action_tray(&[RowAction::Pin], true)[0], TrayButton { action: RowAction::Pin, unpin: true });
    assert_eq!(RowAction::Browser.glyph(), "globe");
    assert_eq!(RowAction::Rename.name(), "rename");
}

#[test]
fn a_row_being_renamed_neither_selects_nor_shows_its_tray() {
    let row = compact_session_row("r", summary("a")).actions(vec![RowAction::Pin]);
    assert!(row.tray_visible(true));
    assert!(row.click_selects());
    let renaming = compact_session_row("r", summary("a")).actions(vec![RowAction::Pin]).editing(true);
    assert!(!renaming.tray_visible(true));
    assert!(!renaming.click_selects());
    assert!(!compact_session_row("r", summary("a")).tray_visible(true));
    assert_eq!(compact_session_row("r", summary("a")).selected(true).title_ink(), InkRole::Ink);
    assert_eq!(row_ground(true, false), (PaletteRole::Surface3, true));
    assert_eq!(row_ground(false, false), (PaletteRole::Surface2, false));
}

use aui::nav::rows::{context_line, status_line, ContextLine, LegacyPart};
use aui::nav::types::Byline;

#[test]
fn the_context_line_says_what_its_kind_promises() {
    match context_line(&summary("a").attention("sudo apt install notifierd")) {
        ContextLine::Single { text, ink } => {
            assert_eq!(text, "sudo apt install notifierd");
            assert_eq!(ink, InkRole::Ink2);
        }
        other => panic!("{other:?}"),
    }
    match context_line(&summary("b").byline("ask", "result")) {
        ContextLine::Pair { ask, result } => assert_eq!((ask.as_str(), result.as_str()), ("ask", "result")),
        other => panic!("{other:?}"),
    }
    match context_line(&summary("c").byline("", "only the result")) {
        ContextLine::Single { text, ink } => assert_eq!((text.as_str(), ink), ("only the result", InkRole::Ink3)),
        other => panic!("{other:?}"),
    }
    match context_line(&summary("d").repo("acme-web").branch("main")) {
        ContextLine::Single { text, ink } => assert_eq!((text.as_str(), ink), ("acme-web · main", InkRole::Ink3)),
        other => panic!("{other:?}"),
    }
    match context_line(&summary("e")) {
        ContextLine::Single { text, ink } => assert_eq!((text.as_str(), ink), (" ", InkRole::Ink3)),
        other => panic!("{other:?}"),
    }
    match context_line(&summary("f").pinned().meta(MetaItem::Tag("v2".to_string()))) {
        ContextLine::Legacy(parts) => assert_eq!(parts, vec![LegacyPart::Pin, LegacyPart::Meta(MetaItem::Tag("v2".to_string()))]),
        other => panic!("{other:?}"),
    }
    assert!(matches!(summary("g").placeholder("Titling…").byline, Some(Byline::Placeholder(_))));
}

#[test]
fn the_status_line_holds_its_line_when_unset() {
    assert_eq!(status_line(&None), (" ".to_string(), InkRole::Ink3));
    assert_eq!(
        status_line(&Some(RowStatus::new(RowStatusKind::Failed, " 1h "))),
        ("Failed · 1h".to_string(), InkRole::Danger)
    );
}
