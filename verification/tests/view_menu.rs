use aui::nav::view_menu::{view_menu, view_submenu, view_submenu_rows, MenuRow, SubmenuEntry};

#[test]
fn the_submenu_checks_the_selected_item_and_draws_its_hairline() {
    let items = vec!["Status".to_string(), "Project".to_string(), "Date".to_string(), "None".to_string()];
    let entries = view_submenu("s", items, Some(1)).separator_before(3).entries();
    assert_eq!(
        entries,
        vec![
            SubmenuEntry::Item { index: 0, checked: false },
            SubmenuEntry::Item { index: 1, checked: true },
            SubmenuEntry::Item { index: 2, checked: false },
            SubmenuEntry::Separator,
            SubmenuEntry::Item { index: 3, checked: false },
        ]
    );
}

#[test]
fn rows_report_indices_after_the_plain_items() {
    let mut sub = view_submenu("s", vec!["a".to_string()], None);
    sub.rows = vec![
        MenuRow::Swatch { label: "Blue".to_string(), checked: true },
        MenuRow::Separator,
        MenuRow::Toggle { label: "Auto".to_string(), checked: false },
    ];
    assert_eq!(
        sub.entries(),
        vec![
            SubmenuEntry::Item { index: 0, checked: false },
            SubmenuEntry::Row { index: 1, row: 0 },
            SubmenuEntry::Separator,
            SubmenuEntry::Row { index: 3, row: 2 },
        ]
    );
    let only_rows = view_submenu_rows("c", vec![MenuRow::Toggle { label: "x".to_string(), checked: true }]);
    assert_eq!(only_rows.entries(), vec![SubmenuEntry::Row { index: 0, row: 0 }]);
}

#[test]
fn the_menu_keeps_its_rows() {
    let menu = view_menu("m", vec![MenuRow::Separator]).present(false);
    assert_eq!(menu.rows.len(), 1);
    assert!(!menu.present);
}
