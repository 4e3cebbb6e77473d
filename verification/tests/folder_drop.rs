use aui::nav::folder_drop::{dirs_only, folder_drop_card, DroppedPath};

fn dropped(path: &str, is_dir: bool) -> DroppedPath {
    DroppedPath { path: path.to_string(), is_dir }
}

#[test]
fn a_drop_hands_over_directories_in_order_and_ignores_files() {
    let paths = vec![dropped("/tmp/work", true), dropped("/tmp/notes.md", false), dropped("/tmp/missing", false), dropped("/tmp/more", true)];
    assert_eq!(dirs_only(&paths), vec!["/tmp/work".to_string(), "/tmp/more".to_string()]);
    assert!(dirs_only(&[]).is_empty());
}

#[test]
fn the_card_reads_its_defaults_until_overridden() {
    let card = folder_drop_card("f");
    assert_eq!(card.title, "Drop a folder here");
    assert_eq!(card.subtitle, "or click to choose one");
    assert!(card.key.is_none() && !card.dragging);
    let custom = folder_drop_card("f").title("Add a project").subtitle("or press").key("⌘⇧O").dragging(true);
    assert_eq!(custom.title, "Add a project");
    assert_eq!(custom.subtitle, "or press");
    assert_eq!(custom.key.as_deref(), Some("⌘⇧O"));
    assert!(custom.dragging);
}
