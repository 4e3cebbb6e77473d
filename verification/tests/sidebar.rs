use aui::nav::rail::{RailItem, SidebarGroup, SidebarNav, SidebarNavItem};
use aui::nav::sidebar::{first_alphanumeric, sidebar, workspace_initial, SidebarLine, SidebarView};
use aui::nav::types::{AgentState, SessionSummary};

#[test]
fn the_switcher_mark_takes_the_first_letter_or_digit_uppercased() {
    assert_eq!(workspace_initial("acme"), "A");
    assert_eq!(workspace_initial("  ~/ßeta"), "SS");
    assert_eq!(workspace_initial("--9lives"), "9");
    assert_eq!(workspace_initial("---"), "\u{b7}");
    assert_eq!(workspace_initial(""), "\u{b7}");
    assert_eq!(first_alphanumeric("_é"), Some('é'));
}

fn nav() -> SidebarNav {
    SidebarNav::new("acme")
        .item(SidebarNavItem::new("tasks", "Tasks", "check"))
        .item(SidebarNavItem::new("inbox", "Inbox", "inbox").count("2").warning())
        .group(
            SidebarGroup::new("web", "acme-web")
                .session(SessionSummary::new("a", "a", AgentState::Running, "1m"))
                .session(SessionSummary::new("b", "b", AgentState::Idle, "1h")),
        )
        .group(SidebarGroup::new("api", "acme-api").closed().session(SessionSummary::new("c", "c", AgentState::Done, "2h")))
        .selected("b")
}

#[test]
fn the_expanded_sidebar_lists_nav_then_groups_and_hides_closed_sessions() {
    let lines = sidebar("s", nav()).lines();
    assert_eq!(
        lines,
        vec![
            SidebarLine::Header,
            SidebarLine::NavItem { item: 0 },
            SidebarLine::NavItem { item: 1 },
            SidebarLine::GroupsRow,
            SidebarLine::GroupHeader { group: 0, open: true },
            SidebarLine::Session { group: 0, session: 0, selected: false },
            SidebarLine::Session { group: 0, session: 1, selected: true },
            SidebarLine::GroupHeader { group: 1, open: false },
            SidebarLine::Footer,
        ]
    );
}

#[test]
fn collapsed_it_draws_the_rail() {
    match sidebar("s", nav()).collapsed(true).view() {
        SidebarView::Rail(cells) => {
            assert_eq!(cells.len(), 5);
            assert!(matches!(cells[1], RailItem::Nav { badge: true, .. }));
            assert!(matches!(cells[2], RailItem::Separator));
        }
        SidebarView::Lines(_) => panic!("a collapsed sidebar is the rail"),
    }
    assert!(matches!(sidebar("s", nav()).view(), SidebarView::Lines(_)));
}

use aui::ink::PaletteRole;
use aui::nav::rail::{nav_cell_look, session_cell_look, CellLook};

#[test]
fn rail_cells_light_for_the_current_the_selected_and_the_hovered() {
    assert_eq!(nav_cell_look(true, false), CellLook { ground: PaletteRole::AccentSoft, lit: true, ink: PaletteRole::AccentInk });
    assert_eq!(nav_cell_look(false, true), CellLook { ground: PaletteRole::Surface2, lit: true, ink: PaletteRole::Ink });
    assert_eq!(nav_cell_look(false, false), CellLook { ground: PaletteRole::Surface2, lit: false, ink: PaletteRole::Ink3 });
    assert_eq!(session_cell_look(false, false, true), CellLook { ground: PaletteRole::Surface2, lit: true, ink: PaletteRole::Ink2 });
    assert_eq!(session_cell_look(true, false, false), CellLook { ground: PaletteRole::AccentSoft, lit: true, ink: PaletteRole::AccentInk });
    assert!(!session_cell_look(false, false, false).lit);
}

#[test]
fn a_titled_tile_bears_its_titles_initial() {
    let tile = RailItem::session("s", AgentState::Running).label("checkout-flow");
    assert_eq!(tile.initial().as_deref(), Some("C"));
    let dot = RailItem::session("s", AgentState::Running);
    assert_eq!(dot.initial(), None);
    assert_eq!(RailItem::separator().initial(), None);
}
