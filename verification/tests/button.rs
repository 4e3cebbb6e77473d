use aui::data::button::{button, icon_button, ButtonSize, ButtonVariant, Look};
use aui::data::pill::{pill, PillVariant};
use aui::ink::PaletteRole;

#[test]
fn a_disabled_button_shows_no_interaction_and_takes_no_focus() {
    let b = button("b", "Save").disabled(true);
    let s = b.state(true, true, true, true);
    assert!(!s.hovered && !s.pressed && !s.ring && !s.tab_stop);
    assert!(s.shadow);
}

#[test]
fn the_ring_shows_only_for_keyboard_focus_and_replaces_the_shadow() {
    let b = button("b", "Save");
    let keyboard = b.state(false, false, true, true);
    assert!(keyboard.ring && !keyboard.shadow && keyboard.tab_stop);
    let mouse = b.state(true, false, true, false);
    assert!(!mouse.ring && mouse.shadow && mouse.hovered);
    let subtle = button("b", "x").ghost().state(false, false, false, false);
    assert!(!subtle.shadow);
}

#[test]
fn variants_paint_with_their_roles() {
    let primary = Look::of(ButtonVariant::Primary, false);
    assert_eq!((primary.bg, primary.bg_hover, primary.text), (PaletteRole::Accent, PaletteRole::AccentStrong, PaletteRole::White));
    assert_eq!(Look::of(ButtonVariant::Subtle, true).text, PaletteRole::Ink3);
    assert_eq!(Look::of(ButtonVariant::Subtle, false).text, PaletteRole::Ink2);
    assert_eq!(Look::of(ButtonVariant::Danger, false).border_hover, PaletteRole::Danger);
    assert_eq!(Look::of(ButtonVariant::Secondary, false).border, PaletteRole::LineStrong);
}

#[test]
fn builders_and_labels() {
    let b = button("b", "Go").primary().sm().muted();
    assert_eq!(b.variant, ButtonVariant::Primary);
    assert_eq!(b.size, ButtonSize::Sm);
    assert!(b.muted && b.shows_label());
    assert!(!button("b", "").shows_label());
    let i = icon_button("i", "x").outline().xs();
    assert!(i.square && i.label.is_none() && !i.shows_label());
    assert_eq!(i.variant, ButtonVariant::Outline);
    assert_eq!(i.size, ButtonSize::Xs);
}

#[test]
fn pills_are_quiet_until_given_a_status() {
    assert_eq!(pill("draft").variant, PillVariant::Quiet);
    assert_eq!(PillVariant::Quiet.colors(), (PaletteRole::Surface3, PaletteRole::Ink2, None));
    assert_eq!(PillVariant::Line.colors(), (PaletteRole::Transparent, PaletteRole::Ink2, Some(PaletteRole::Line)));
    assert_eq!(pill("needs you").variant(PillVariant::Warning).variant, PillVariant::Warning);
}
