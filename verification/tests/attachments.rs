use aui::composer::attachments::{
    action_label, attachment_row, drop_overlay, AttachmentAction, AttachmentKind, AttachmentRowState, AttachmentTile,
    NameStyle, RowBorder,
};
use aui::ink::{InkRole, PaletteRole};

#[test]
fn a_ready_row_shows_its_meta_and_an_x() {
    let r = attachment_row("a", "notes.pdf", "1.2 MB");
    assert_eq!(r.glyph_name(), "file");
    assert_eq!(r.tile(), AttachmentTile::Placeholder);
    assert_eq!(r.tile_tint(), None);
    assert!(!r.dimmed());
    assert_eq!(r.name_style(), NameStyle::Plain);
    assert_eq!(r.meta_line(), ("1.2 MB".to_string(), InkRole::Ink3));
    assert_eq!(r.border(), RowBorder::Line);
    assert_eq!(r.action(), AttachmentAction::Remove);
    assert_eq!(action_label(r.action()), None);
    assert!(!r.shows_progress());
}

#[test]
fn an_upload_shows_its_percent_and_cancel() {
    let r = attachment_row("a", "shot.png", "PNG").kind(AttachmentKind::Image).state(AttachmentRowState::Uploading(40));
    assert_eq!(r.glyph_name(), "image");
    assert!(r.dimmed());
    assert!(r.shows_progress());
    assert_eq!(r.name_style(), NameStyle::Shimmer);
    assert_eq!(r.meta_line(), ("Uploading · 40%".to_string(), InkRole::Ink3));
    assert_eq!(r.action(), AttachmentAction::Cancel);
    assert_eq!(action_label(r.action()), Some("Cancel"));
    let done = attachment_row("b", "x", "").state(AttachmentRowState::Uploading(100));
    assert_eq!(done.meta_line().0, "Uploading · 100%");
}

#[test]
fn a_failure_shows_the_reason_in_danger_and_retry() {
    let r = attachment_row("a", "big.mov", "80 MB")
        .kind(AttachmentKind::Text)
        .state(AttachmentRowState::Failed("Too large".to_string()));
    assert_eq!(r.glyph_name(), "x");
    assert_eq!(r.tile(), AttachmentTile::DangerTint);
    assert_eq!(r.tile_tint(), Some((PaletteRole::DangerSoft, PaletteRole::Danger)));
    assert_eq!(r.meta_line(), ("Too large".to_string(), InkRole::Danger));
    assert_eq!(r.border(), RowBorder::Danger);
    assert_eq!(r.action(), AttachmentAction::Retry);
    assert_eq!(action_label(r.action()), Some("Retry"));
}

#[test]
fn the_hint_is_dashed_muted_and_has_no_action() {
    let r = attachment_row("h", "Paste an image or drop files", "").kind(AttachmentKind::Text).state(AttachmentRowState::Hint);
    assert_eq!(r.glyph_name(), "paperclip");
    assert_eq!(r.tile(), AttachmentTile::Placeholder);
    assert_eq!(r.name_style(), NameStyle::Muted);
    assert_eq!(r.border(), RowBorder::Dashed);
    assert_eq!(r.action(), AttachmentAction::Nothing);
}

#[test]
fn a_text_excerpt_takes_the_info_tint_and_a_preview_replaces_the_tile() {
    let text = attachment_row("t", "excerpt", "12 lines").kind(AttachmentKind::Text);
    assert_eq!(text.tile(), AttachmentTile::InfoTint);
    assert_eq!(text.tile_tint(), Some((PaletteRole::InfoSoft, PaletteRole::Info)));
    let image = attachment_row("i", "shot.png", "PNG").kind(AttachmentKind::Image).thumbnail();
    assert_eq!(image.tile(), AttachmentTile::Preview);
    let failed = attachment_row("i", "shot.png", "PNG")
        .kind(AttachmentKind::Image)
        .thumbnail()
        .state(AttachmentRowState::Failed("gone".to_string()));
    assert_eq!(failed.tile(), AttachmentTile::Preview);
    let file_with_thumb = attachment_row("f", "a", "b").thumbnail();
    assert_eq!(file_with_thumb.tile(), AttachmentTile::Placeholder);
}

#[test]
fn an_explicit_glyph_wins() {
    let r = attachment_row("a", "doc.pdf", "").glyph("file-text").state(AttachmentRowState::Failed("no".to_string()));
    assert_eq!(r.glyph_name(), "file-text");
}

#[test]
fn the_drop_overlay_has_stock_words() {
    let o = drop_overlay("ov", true);
    assert!(o.visible);
    assert_eq!(o.title, "Drop to attach to this turn");
    assert_eq!(o.subtitle, "images become screenshots the agent can see");
    assert!(!o.at_rest);
    let o = o.title("Drop 3 files").subtitle("3 files").at_rest();
    assert_eq!(o.title, "Drop 3 files");
    assert_eq!(o.subtitle, "3 files");
    assert!(o.at_rest);
}
