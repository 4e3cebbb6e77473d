use aui::ink::InkRole;
use aui::nav::types::AgentState;
use aui::overlay::command_palette::{active_row, command_palette, PaletteIcon, PaletteItem, PaletteSection};

fn item(id: &str) -> PaletteItem {
    PaletteItem::new(id, PaletteIcon::Glyph("file".to_string()), id)
}

#[test]
fn matching_appends_the_first_occurrence() {
    let it = PaletteItem::new("w", PaletteIcon::Dot(AgentState::Running), "acme-web / web-app").matching("web");
    assert_eq!(it.matched, vec![5..8]);
    let twice = it.matching("app");
    assert_eq!(twice.matched, vec![5..8, 15..18]);
    let none = PaletteItem::new("w", PaletteIcon::Mark { initial: "A".to_string() }, "acme").matching("zz");
    assert!(none.matched.is_empty());
}

#[test]
fn builders_fill_their_own_fields() {
    let it = item("open").context("acme-web").badge("needs you").key("⌘").key("O");
    assert_eq!(it.context.as_deref(), Some("acme-web"));
    assert_eq!(it.badge.as_deref(), Some("needs you"));
    assert_eq!(it.keys, vec!["⌘".to_string(), "O".to_string()]);
    assert_eq!(it.label, "open");
}

#[test]
fn the_pointer_owns_the_highlight_while_it_is_over_a_row() {
    assert_eq!(active_row(Some(4), 1), 4);
    assert_eq!(active_row(None, 1), 1);
}

#[test]
fn the_query_row_shows_the_placeholder_only_while_empty() {
    let empty = command_palette("p", "", Vec::new(), 0).placeholder("Search or run a command");
    let (text, ink) = empty.query_text();
    assert_eq!(text, "Search or run a command");
    assert_eq!(ink, InkRole::Ink4);
    let typed = command_palette("p", "chk", Vec::new(), 0).placeholder("Search");
    assert_eq!(typed.query_text(), ("chk".to_string(), InkRole::Ink));
}

#[test]
fn the_selection_indexes_rows_across_sections() {
    let p = command_palette(
        "p",
        "",
        vec![
            PaletteSection::new("Worktrees", vec![item("a"), item("b")]),
            PaletteSection::new("Actions", Vec::new()),
            PaletteSection::new("Files", vec![item("c")]),
        ],
        0,
    );
    assert_eq!(p.row_at(0), Some((0, 0)));
    assert_eq!(p.row_at(1), Some((0, 1)));
    assert_eq!(p.row_at(2), Some((2, 0)));
    assert_eq!(p.row_at(3), None);
}
