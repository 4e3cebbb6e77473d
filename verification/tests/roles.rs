use aui::nav::roles::{role_section, Project, Role, RoleGroup, RoleLine, RoleSession, SessionKind};

fn role() -> Role {
    Role::new("edu", "Director, Education", "briefcase", 7)
        .project(
            Project::new("p1", "Curriculum", 2)
                .session(RoleSession::new("s1", "Outline", SessionKind::Document, "2h"))
                .session(RoleSession::new("s2", "Budget", SessionKind::Sheet, "1d")),
        )
        .project(Project::new("p2", "Hiring", 0))
        .knowledge("Handbook")
}

#[test]
fn a_closed_role_is_its_header_with_the_count() {
    let lines = role_section("r", role()).lines();
    assert_eq!(lines, vec![RoleLine::Header { open: false, tag: Some(7) }]);
}

#[test]
fn an_open_role_lists_projects_with_their_sessions_then_knowledge() {
    let lines = role_section("r", role().open()).active_session(Some("s2")).lines();
    assert_eq!(
        lines,
        vec![
            RoleLine::Header { open: true, tag: None },
            RoleLine::GroupLabel { group: RoleGroup::Projects, count: 2 },
            RoleLine::Project { project: 0 },
            RoleLine::Session { project: 0, session: 0, active: false },
            RoleLine::Session { project: 0, session: 1, active: true },
            RoleLine::Project { project: 1 },
            RoleLine::GroupLabel { group: RoleGroup::Knowledge, count: 1 },
            RoleLine::Knowledge,
        ]
    );
}

#[test]
fn empty_groups_draw_no_label() {
    let lines = role_section("r", Role::new("x", "X", "g", 0).open()).lines();
    assert_eq!(lines, vec![RoleLine::Header { open: true, tag: None }]);
}

#[test]
fn each_kind_has_its_glyph() {
    assert_eq!(SessionKind::Chat.icon(), "sparkle");
    assert_eq!(SessionKind::Document.icon(), "doc");
    assert_eq!(SessionKind::Sheet.icon(), "sheet");
}
