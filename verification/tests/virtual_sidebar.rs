use aui::nav::types::{AgentState, SessionSummary};
use aui::nav::views::{
    flatten_sidebar, row_index_for_session, DateGroup, Grouping, ProjectGroup, SessionScope, SidebarRow, StatusGroup,
};

fn session(id: &str) -> SessionSummary {
    SessionSummary::new(id, id, AgentState::Idle, "1h")
}

fn status_grouping() -> Grouping {
    Grouping::Status(vec![
        StatusGroup::new("needs-you", "Needs you", "1", vec![session("a")]),
        StatusGroup::new("running", "Running", "2", vec![session("b"), session("c")]).closed(),
        StatusGroup::new("done", "Done", "0", Vec::new()),
    ])
}

#[test]
fn status_order_is_stable_and_closed_groups_contribute_only_their_header() {
    let rows = flatten_sidebar(&status_grouping(), false);
    assert_eq!(
        rows,
        vec![
            SidebarRow::StatusHeader { group: 0 },
            SidebarRow::Session { scope: SessionScope::Status, group: 0, session: 0 },
            SidebarRow::StatusHeader { group: 1 },
            SidebarRow::StatusHeader { group: 2 },
        ]
    );
}

#[test]
fn project_folds_follow_the_visible_sessions() {
    let grouping = Grouping::Project(vec![
        ProjectGroup::new("web", "web", "8").folded(5, false).open(vec![session("a"), session("b"), session("c")]),
        ProjectGroup::new("api", "api", "3").open(vec![session("d")]),
        ProjectGroup::new("old", "old", "2"),
    ]);
    let rows = flatten_sidebar(&grouping, false);
    assert_eq!(
        rows,
        vec![
            SidebarRow::ProjectHead { group: 0 },
            SidebarRow::Session { scope: SessionScope::Project, group: 0, session: 0 },
            SidebarRow::Session { scope: SessionScope::Project, group: 0, session: 1 },
            SidebarRow::Session { scope: SessionScope::Project, group: 0, session: 2 },
            SidebarRow::Fold { group: 0 },
            SidebarRow::ProjectHead { group: 1 },
            SidebarRow::Session { scope: SessionScope::Project, group: 1, session: 0 },
            SidebarRow::ProjectHead { group: 2 },
        ]
    );
}

#[test]
fn date_buckets_lift_pinned_first_and_number_only_nonempty_buckets() {
    let grouping = Grouping::Date(vec![
        DateGroup::new("Today", vec![session("a").pinned(), session("b")]),
        DateGroup::new("Yesterday", vec![session("c").pinned()]),
        DateGroup::new("This week", vec![session("d")]),
    ]);
    let rows = flatten_sidebar(&grouping, false);
    assert_eq!(
        rows,
        vec![
            SidebarRow::PinnedHeader,
            SidebarRow::Session { scope: SessionScope::Pinned, group: 0, session: 0 },
            SidebarRow::Session { scope: SessionScope::Pinned, group: 1, session: 0 },
            SidebarRow::DateHeader { group: 0, dated: 0 },
            SidebarRow::Session { scope: SessionScope::Date { dated: 0 }, group: 0, session: 1 },
            SidebarRow::DateHeader { group: 2, dated: 1 },
            SidebarRow::Session { scope: SessionScope::Date { dated: 1 }, group: 2, session: 0 },
        ]
    );
}

#[test]
fn without_a_pinned_session_the_buckets_lead_and_empty_buckets_draw_nothing() {
    let grouping = Grouping::Date(vec![
        DateGroup::new("Today", Vec::new()),
        DateGroup::new("Yesterday", vec![session("a"), session("b")]),
    ]);
    let rows = flatten_sidebar(&grouping, false);
    assert_eq!(
        rows,
        vec![
            SidebarRow::DateHeader { group: 1, dated: 0 },
            SidebarRow::Session { scope: SessionScope::Date { dated: 0 }, group: 1, session: 0 },
            SidebarRow::Session { scope: SessionScope::Date { dated: 0 }, group: 1, session: 1 },
        ]
    );
}

#[test]
fn caption_is_one_leading_row_and_empty_groupings_flatten_to_nothing() {
    let empty = Grouping::Project(Vec::new());
    assert!(flatten_sidebar(&empty, false).is_empty());
    assert_eq!(flatten_sidebar(&empty, true), vec![SidebarRow::Caption]);
    let rows = flatten_sidebar(&status_grouping(), true);
    assert_eq!(rows[0], SidebarRow::Caption);
    assert_eq!(rows.len(), 5);
}

#[test]
fn session_index_finds_the_selected_row_and_misses_rows_behind_a_fold() {
    let grouping =
        Grouping::Project(vec![ProjectGroup::new("web", "web", "8").folded(1, false).open(vec![session("a"), session("b")])]);
    let rows = flatten_sidebar(&grouping, true);
    assert_eq!(row_index_for_session(&rows, &grouping, "b"), Some(3));
    assert_eq!(row_index_for_session(&rows, &grouping, "held-back"), None);
    let expanded = Grouping::Project(vec![ProjectGroup::new("web", "web", "8")
        .folded(1, true)
        .open(vec![session("a"), session("b"), session("held-back")])]);
    let expanded_rows = flatten_sidebar(&expanded, true);
    assert_eq!(row_index_for_session(&expanded_rows, &expanded, "held-back"), Some(4));
    assert_eq!(row_index_for_session(&expanded_rows, &expanded, "nope"), None);
}

#[test]
fn a_cloned_summary_keeps_every_field_and_child() {
    let mut parent = session("p").pinned();
    parent.children = vec![session("c1"), session("c2")];
    assert_eq!(parent.clone(), parent);
}
