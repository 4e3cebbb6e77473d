use aui::nav::types::AgentState;
use aui::nav::views::{project_group_row, EdgeBar, LeadingSlot, ProjectGroup};

#[test]
fn current_is_its_own_flag() {
    assert!(!ProjectGroup::new("a", "a", "1").current);
    assert!(ProjectGroup::new("a", "a", "1").current(true).current);
    let muted_current = ProjectGroup::new("a", "a", "1").muted().current(true);
    assert!(muted_current.current && muted_current.muted);
}

#[test]
fn group_rows_are_plain_unless_asked() {
    let group = ProjectGroup::new("a", "a", "1");
    assert!(!group.chevron && !group.current_bar, "data defaults to plain");
    let row = project_group_row("a", "a", "1", false);
    assert!(!row.chevron && !row.current_bar, "row defaults to plain");
    let dressed = project_group_row("a", "a", "1", false).chevron(true).current_bar(true);
    assert!(dressed.chevron && dressed.current_bar, "builders opt in");
}

#[test]
fn current_alone_changes_nothing_and_the_state_wins_the_edge() {
    assert_eq!(project_group_row("a", "a", "1", true).current().edge_bar(), EdgeBar::Nothing);
    assert_eq!(project_group_row("a", "a", "1", true).current().current_bar(true).edge_bar(), EdgeBar::Current);
    assert_eq!(
        project_group_row("a", "a", "1", true).current().current_bar(true).state(AgentState::Running).edge_bar(),
        EdgeBar::State(AgentState::Running)
    );
}

#[test]
fn the_leading_box_holds_a_chevron_or_an_unmuted_mark() {
    assert_eq!(project_group_row("a", "a", "1", true).leading(), LeadingSlot::Plain);
    assert_eq!(project_group_row("a", "a", "1", true).mark("A").leading(), LeadingSlot::Mark);
    assert_eq!(project_group_row("a", "a", "1", true).mark("A").muted().leading(), LeadingSlot::Plain);
    assert_eq!(project_group_row("a", "a", "1", true).mark("A").chevron(true).leading(), LeadingSlot::Chevron);
    assert!(project_group_row("a", "a", "1", true).shows_count());
    assert!(!project_group_row("a", "a", "", true).shows_count());
}

use aui::nav::views::fold_label;
use aui::overlay::{menu_corner, MenuAlign, MenuCorner, MenuSide};
use aui::composer::composer::{chip_lead, ChipLead, ComposerChipKind};

#[test]
fn the_fold_row_counts_what_it_holds_back() {
    assert_eq!(fold_label(5, false), "Show 5 more");
    assert_eq!(fold_label(12, false), "Show 12 more");
    assert_eq!(fold_label(5, true), "Show less");
}

#[test]
fn a_menu_hangs_from_the_corner_facing_its_trigger() {
    assert_eq!(menu_corner(MenuSide::Below, MenuAlign::Start), MenuCorner::TopLeft);
    assert_eq!(menu_corner(MenuSide::Below, MenuAlign::End), MenuCorner::TopRight);
    assert_eq!(menu_corner(MenuSide::Above, MenuAlign::Start), MenuCorner::BottomLeft);
    assert_eq!(menu_corner(MenuSide::Above, MenuAlign::End), MenuCorner::BottomRight);
}

#[test]
fn chips_lead_with_their_sigil_or_glyph() {
    assert_eq!(chip_lead(ComposerChipKind::Mention), ChipLead::At);
    assert_eq!(chip_lead(ComposerChipKind::Skill), ChipLead::Dollar);
    assert_eq!(chip_lead(ComposerChipKind::Image), ChipLead::ImageGlyph);
    assert_eq!(chip_lead(ComposerChipKind::File), ChipLead::FileGlyph);
}
