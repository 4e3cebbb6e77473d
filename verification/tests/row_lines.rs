use aui::composer::composer::{composer, ComposerMeta};
use aui::composer::pickers::model_menu;
use aui::data::button::ButtonVariant;
use aui::feedback::toast::{action_variant, toast_stack, ToastData};
use aui::ink::InkRole;
use aui::nav::detail::{attention_for, session_detail};
use aui::nav::rows::{activity_line, session_activity, session_meta_parts, ActivityLead, LegacyPart};
use aui::nav::types::{ActivityKind, AgentState, MetaItem, RowStatusKind, SessionSummary};
use aui::nav::views::{row_index_for_session, DateGroup, Grouping, SessionScope, SidebarRow};
use aui::text::thousands;

fn summary(id: &str) -> SessionSummary {
    SessionSummary::new(id, id, AgentState::Idle, "1h")
}

#[test]
fn the_full_row_meta_line_leads_with_the_pin_and_leaves_the_activity_out() {
    let s = summary("a")
        .pinned()
        .repo("web")
        .branch("fix/login")
        .meta(MetaItem::Danger("2 tests failed".to_string()))
        .provider("acme")
        .provider("globex")
        .activity(ActivityKind::Working, "Running tests");
    assert_eq!(
        session_meta_parts(&s),
        vec![
            LegacyPart::Pin,
            LegacyPart::Repo("web".to_string()),
            LegacyPart::Branch("fix/login".to_string()),
            LegacyPart::Meta(MetaItem::Danger("2 tests failed".to_string())),
            LegacyPart::Provider("acme".to_string()),
            LegacyPart::Provider("globex".to_string()),
        ]
    );
    assert_eq!(session_activity(&s), Some(("Running tests".to_string(), InkRole::Ink2, Some(ActivityLead::Spinner))));
    assert!(session_meta_parts(&summary("b")).is_empty());
    assert_eq!(session_activity(&summary("b")), None);
}

#[test]
fn the_activity_line_takes_its_ink_and_lead_from_its_kind() {
    assert_eq!(activity_line(ActivityKind::Working), (InkRole::Ink2, Some(ActivityLead::Spinner)));
    assert_eq!(activity_line(ActivityKind::Waiting), (InkRole::Warning, Some(ActivityLead::Shield)));
    assert_eq!(activity_line(ActivityKind::Failed), (InkRole::Danger, None));
    assert_eq!(activity_line(ActivityKind::Plain), (InkRole::Ink2, None));
}

#[test]
fn toast_buttons_are_primary_on_request_else_secondary_then_subtle() {
    assert_eq!(action_variant(true, 0), ButtonVariant::Primary);
    assert_eq!(action_variant(true, 2), ButtonVariant::Primary);
    assert_eq!(action_variant(false, 0), ButtonVariant::Secondary);
    assert_eq!(action_variant(false, 1), ButtonVariant::Subtle);
    let stack = toast_stack("s", vec![ToastData::new("a", "A", "")]);
    assert!(!stack.at_rest);
    assert!(stack.at_rest().at_rest);
}

#[test]
fn the_picker_title_is_drawn_in_capitals() {
    let menu = model_menu("m", Vec::new(), 0, true);
    assert_eq!(menu.caps_title(), "MODEL");
    assert_eq!(menu.title("straße").caps_title(), "STRASSE");
}

#[test]
fn the_meta_strip_writes_the_branch_and_the_context() {
    let meta = ComposerMeta {
        branch: "main".to_string(),
        context_percent: 62,
        cost: "$0.31 this session".to_string(),
        hint: "⌘↩ to queue".to_string(),
    };
    assert_eq!(meta.branch_label(), "⎇ main");
    assert_eq!(meta.context_label(), "62%");
    let c = composer("c", "opus");
    assert!(c.meta.is_none());
    let c = c.meta(meta);
    assert_eq!(c.meta.as_ref().map(|m| m.context_percent), Some(62));
}

#[test]
fn commas_stand_only_between_groups_of_three() {
    for n in [0u64, 7, 999, 1_000, 12_345, 1_007_997, u64::MAX] {
        let t = thousands(n);
        let b: Vec<char> = t.chars().collect();
        assert_ne!(b[0], ',');
        assert_ne!(*b.last().unwrap(), ',');
        let lead = b.iter().position(|c| *c == ',').unwrap_or(b.len());
        assert!((1..=3).contains(&lead));
        for (i, c) in b.iter().enumerate() {
            if *c == ',' {
                assert!(b[i + 1..i + 4].iter().all(|d| *d != ','));
                assert!(i + 4 == b.len() || b[i + 4] == ',');
            }
        }
        assert_eq!(t.replace(',', ""), n.to_string());
    }
}

#[test]
fn the_attention_words_are_trimmed_and_labelled_by_kind() {
    let d = session_detail("Fix login").status(RowStatusKind::NeedsApproval, "  rm -rf build  ");
    assert_eq!(attention_for(&d.data), Some(("Needs approval:", "rm -rf build".to_string())));
    let q = session_detail("Fix login").status(RowStatusKind::Asked, "   ");
    assert_eq!(attention_for(&q.data), None);
}

#[test]
fn a_search_reads_only_the_rows_up_to_its_match() {
    let grouping = Grouping::Date(vec![DateGroup::new("Today", vec![summary("a")])]);
    let rows = vec![
        SidebarRow::DateHeader { group: 0, dated: 0 },
        SidebarRow::Session { scope: SessionScope::Date { dated: 0 }, group: 0, session: 0 },
        SidebarRow::Session { scope: SessionScope::Date { dated: 0 }, group: 7, session: 3 },
    ];
    assert_eq!(row_index_for_session(&rows, &grouping, "a"), Some(1));
}
