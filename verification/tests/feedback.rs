use aui::data::button::{ButtonSize, ButtonVariant};
use aui::feedback::banner::{banner, banner_message, BannerActionStyle, BannerKind, BannerMessage, BannerRun};
use aui::feedback::toast::{toast_stack, ToastAction, ToastData, ToastKind};
use aui::ink::PaletteRole;

#[test]
fn only_the_states_that_need_the_person_are_tinted() {
    assert_eq!(BannerKind::Waiting.surface(), (PaletteRole::WarningSoft, PaletteRole::WarningSoft));
    assert_eq!(BannerKind::Error.surface(), (PaletteRole::DangerSoft, PaletteRole::DangerSoft));
    assert_eq!(BannerKind::Info.surface(), (PaletteRole::Surface1, PaletteRole::Line));
    assert_eq!(BannerKind::Success.surface(), (PaletteRole::Surface1, PaletteRole::Line));
    assert_eq!(BannerKind::Waiting.glyph(), Some(("shield", PaletteRole::Warning)));
    assert_eq!(BannerKind::Success.glyph(), None);
}

#[test]
fn plain_and_bold_runs_join_into_one_wrapping_text() {
    let runs = vec![
        BannerRun::Bold("Waiting for you.".to_string()),
        BannerRun::Text(" Allow ".to_string()),
        BannerRun::Bold("é".to_string()),
    ];
    match banner_message(&runs) {
        BannerMessage::Styled { text, bold } => {
            assert_eq!(text, "Waiting for you. Allow é");
            assert_eq!(bold, vec![0..16, 23..25]);
        }
        BannerMessage::Runs => panic!("no mono run"),
    }
}

#[test]
fn a_mono_run_keeps_the_runs_apart() {
    let runs = vec![BannerRun::Bold("Waiting.".to_string()), BannerRun::Mono("pnpm test".to_string())];
    assert!(matches!(banner_message(&runs), BannerMessage::Runs));
}

#[test]
fn the_secondary_button_sits_left_of_the_action() {
    let b = banner("b", BannerKind::Waiting, Vec::new())
        .action("Send anyway", BannerActionStyle::Primary)
        .secondary_action("Sign out", BannerActionStyle::Subtle);
    let buttons = b.buttons();
    assert_eq!(buttons.len(), 2);
    assert_eq!(buttons[0].label.as_deref(), Some("Sign out"));
    assert_eq!(buttons[0].variant, ButtonVariant::Subtle);
    assert_eq!(buttons[1].label.as_deref(), Some("Send anyway"));
    assert_eq!(buttons[1].variant, ButtonVariant::Primary);
    assert!(buttons.iter().all(|b| b.size == ButtonSize::Xs));
    assert!(banner("b", BannerKind::Info, Vec::new()).buttons().is_empty());
}

#[test]
fn toast_tiles_and_depths() {
    assert_eq!(ToastKind::Neutral.tile(), (PaletteRole::Surface3, PaletteRole::Ink2, None));
    assert_eq!(ToastKind::Done.tile(), (PaletteRole::SuccessSoft, PaletteRole::Success, Some("check")));
    assert_eq!(ToastKind::Warn.tile(), (PaletteRole::WarningSoft, PaletteRole::Warning, Some("shield")));
    let t = ToastData::new("t", "Copied", "The code is on the clipboard")
        .kind(ToastKind::Done)
        .action(ToastAction::new("undo", "Undo").primary());
    assert_eq!(t.actions.len(), 1);
    assert!(t.actions[0].primary);
    let stack = toast_stack("s", vec![ToastData::new("a", "A", ""), ToastData::new("b", "B", ""), t]);
    assert_eq!(stack.depth(2), 0);
    assert_eq!(stack.depth(0), 2);
    assert!(stack.fanned(true));
    assert!(!stack.hovered(Some(false)).fanned(true));
}
