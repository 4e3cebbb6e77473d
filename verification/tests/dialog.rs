use aui::data::button::ButtonVariant;
use aui::data::chip::chip;
use aui::ink::PaletteRole;
use aui::overlay::dialog::{dialog, DialogKind};

#[test]
fn the_primary_sits_at_the_far_right() {
    let d = dialog("d", "Session already in use").kind(DialogKind::Error).secondary("Dismiss").primary("Open another session");
    let buttons = d.buttons();
    assert_eq!(buttons.len(), 2);
    assert_eq!(buttons[0].label.as_deref(), Some("Dismiss"));
    assert_eq!(buttons[0].variant, ButtonVariant::Secondary);
    assert_eq!(buttons[1].label.as_deref(), Some("Open another session"));
    assert_eq!(buttons[1].variant, ButtonVariant::Primary);
    let only = dialog("d", "Heads up").danger(true).buttons();
    assert_eq!(only.len(), 1);
    assert_eq!(only[0].label.as_deref(), Some("OK"));
    assert_eq!(only[0].variant, ButtonVariant::Danger);
    assert_eq!(DialogKind::Error.tile(), (PaletteRole::DangerSoft, PaletteRole::Danger, "x"));
    assert_eq!(DialogKind::default(), DialogKind::Info);
}

#[test]
fn a_chip_lifts_under_the_pointer_or_while_active() {
    let c = chip("c", "Sonnet").chevron();
    assert_eq!(c.look(false), (PaletteRole::Line, PaletteRole::Ink2));
    assert_eq!(c.look(true), (PaletteRole::LineStrong, PaletteRole::Ink));
    let add = chip("a", "+ add").accent();
    assert_eq!(add.look(true), (PaletteRole::LineStrong, PaletteRole::AccentInk));
    let open = chip("o", "Mode").active(true);
    assert_eq!(open.look(false), (PaletteRole::LineStrong, PaletteRole::Ink));
}
