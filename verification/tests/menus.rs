use aui::composer::menus::{first_match, row_child_index, MentionIcon, MentionItem};

#[test]
fn row_child_index_skips_section_headers() {
    let counts = [2, 1, 2];
    assert_eq!(row_child_index(&counts, 0), 1);
    assert_eq!(row_child_index(&counts, 1), 2);
    assert_eq!(row_child_index(&counts, 2), 4);
    assert_eq!(row_child_index(&counts, 3), 6);
    assert_eq!(row_child_index(&counts, 4), 7);
}

#[test]
fn row_child_index_handles_a_single_section() {
    assert_eq!(row_child_index(&[3], 0), 1);
    assert_eq!(row_child_index(&[3], 2), 3);
}

#[test]
fn a_later_row_sits_at_a_later_child() {
    let counts = [1, 0, 3, 2];
    let children: Vec<usize> = (0..6).map(|row| row_child_index(&counts, row)).collect();
    assert_eq!(children, vec![1, 4, 5, 6, 8, 9]);
}

#[test]
fn the_first_occurrence_is_the_match() {
    assert_eq!(first_match("checkout-check", "check"), Some(0..5));
    assert_eq!(first_match("a-checkout", "check"), Some(2..7));
    assert_eq!(first_match("héllo wörld", "wö"), Some(7..10));
    assert_eq!(first_match("abc", "x"), None);
}

#[test]
fn a_mention_marks_its_first_match_or_stays_as_it_was() {
    let item = MentionItem::new("f", MentionIcon::Symbol, "app/app.rs", "src").matching("app");
    assert_eq!(item.matched, 0..3);
    let kept = MentionItem::new("f", MentionIcon::Symbol, "app.rs", "src").matched(1..2).matching("zz");
    assert_eq!(kept.matched, 1..2);
}
