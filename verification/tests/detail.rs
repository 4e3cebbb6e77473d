use aui::nav::detail::{
    age_text, attention_for, detail_keys, first_line, first_lines, session_detail, SESSION_DETAIL_ASK_LINES,
};
use aui::nav::types::RowStatusKind;

#[test]
fn detail_keys_follow_set_fields_in_order() {
    let full = session_detail("d")
        .title("checkout-flow-v2")
        .ask("Tighten validation")
        .reply("Patched the validator")
        .status(RowStatusKind::Working, "14m")
        .project("acme-web")
        .branch("feature/checkout")
        .turns(5)
        .updated("12m ago")
        .workspace("~/Projects/acme-web")
        .data();
    assert_eq!(detail_keys(&full), vec!["Title", "Ask", "Reply", "Branch", "Turns", "Updated", "Path"]);
    let sparse = session_detail("d").title("Blank slate").data();
    assert_eq!(detail_keys(&sparse), vec!["Title"]);
    let empty = session_detail("d").data();
    assert!(detail_keys(&empty).is_empty());
    let blanks = session_detail("d").ask("   ").branch("  ").project("acme-web").data();
    assert_eq!(detail_keys(&blanks), vec!["Path"]);
}

#[test]
fn question_box_replaces_the_reply_line() {
    let asked = session_detail("d")
        .title("auth-session-refresh")
        .ask("Refresh the session tokens")
        .reply("Loaded the auth client")
        .status(RowStatusKind::Asked, "")
        .pending_question("Which bucket for staging?")
        .data();
    assert_eq!(detail_keys(&asked), vec!["Title", "Ask", "Attention"]);
    let (label, words) = attention_for(&asked).expect("pending words draw the box");
    assert_eq!(label, "Asked:");
    assert_eq!(words, "Which bucket for staging?");
    let bare = session_detail("d").reply("Loaded the auth client").status(RowStatusKind::Asked, "").data();
    assert!(attention_for(&bare).is_none());
    assert_eq!(detail_keys(&bare), vec!["Reply"]);
}

#[test]
fn approval_wins_and_status_detail_falls_back() {
    let approval = session_detail("d")
        .status(RowStatusKind::NeedsApproval, "")
        .pending_question("Which bucket for staging?")
        .pending_approval("cargo install notifierd")
        .data();
    assert_eq!(detail_keys(&approval), vec!["Attention"]);
    let (label, words) = attention_for(&approval).expect("approval words draw the box");
    assert_eq!(label, "Needs approval:");
    assert_eq!(words, "cargo install notifierd");
    let flagged = session_detail("d").status(RowStatusKind::Asked, "Which bucket for staging?").data();
    let (label, words) = attention_for(&flagged).expect("status detail falls back");
    assert_eq!(label, "Asked:");
    assert_eq!(words, "Which bucket for staging?");
    assert_eq!(detail_keys(&flagged), vec!["Attention"]);
    let settled = session_detail("d")
        .status(RowStatusKind::Settled, "12m · 5 turns")
        .pending_question("Which bucket for staging?")
        .data();
    assert!(attention_for(&settled).is_none());
    assert_eq!(detail_keys(&settled), vec!["Reply"]);
}

#[test]
fn excerpt_budgets_hold() {
    assert_eq!(age_text("12m ago"), "12m");
    assert_eq!(age_text("now"), "now");
    assert_eq!(first_line("Patched the validator\nsecond line"), "Patched the validator");
    assert_eq!(first_lines("one\n\ntwo\nthree", SESSION_DETAIL_ASK_LINES), "one\ntwo…");
    assert_eq!(first_lines("one\ntwo", SESSION_DETAIL_ASK_LINES), "one\ntwo");
    assert_eq!(first_lines("   ", SESSION_DETAIL_ASK_LINES), "");
}

#[test]
fn an_excerpt_has_no_empty_line_and_keeps_its_budget() {
    let out = first_lines("  lead\n\n\n  mid  \r\nend\nmore", 3);
    assert_eq!(out, "lead\n  mid\nend…");
    assert!(out.split('\n').all(|l| !l.is_empty()));
    assert!(out.split('\n').count() <= 3);
    assert_eq!(first_lines("\n\nonly\n\n", 3), "only");
}

use aui::ink::InkRole;
use aui::nav::detail::detail_card;

#[test]
fn the_card_carries_every_set_field_in_its_own_words() {
    let data = session_detail("d")
        .title("checkout-flow-v2")
        .ask("Tighten validation\nfor every form\nand more")
        .reply("Patched the validator\nsecond line")
        .status(RowStatusKind::Settled, "12m")
        .project(" acme-web ")
        .branch("feature/checkout")
        .turns(5)
        .updated("12m ago")
        .workspace("~/Projects/acme-web")
        .data();
    let card = detail_card(&data);
    assert_eq!(card.title.as_deref(), Some("checkout-flow-v2"));
    assert_eq!(card.age.as_deref(), Some("12m"));
    assert_eq!(card.ask.as_deref(), Some("Tighten validation\nfor every form…"));
    assert_eq!(card.reply, Some(("Patched the validator".to_string(), InkRole::Success)));
    assert!(card.attention.is_none());
    assert_eq!(card.branch.as_deref(), Some("feature/checkout"));
    assert_eq!(card.turns.as_deref(), Some("5"));
    assert_eq!(card.updated.as_deref(), Some("12m ago"));
    assert_eq!(card.footer.as_deref(), Some("acme-web · ~/Projects/acme-web"));
}

#[test]
fn a_waiting_card_quotes_the_question_and_states_the_command() {
    let asked = session_detail("d").status(RowStatusKind::Asked, "").pending_question("Which bucket?").data();
    let card = detail_card(&asked);
    let attention = card.attention.expect("the question draws the box");
    assert_eq!(attention.label, "Asked:");
    assert!(attention.question);
    assert_eq!(attention.text, "Asked: “Which bucket?”");
    assert!(card.reply.is_none());
    let approval = session_detail("d").status(RowStatusKind::NeedsApproval, "").pending_approval("cargo install x").data();
    let boxed = detail_card(&approval).attention.expect("the command draws the box");
    assert!(!boxed.question);
    assert_eq!(boxed.text, "Needs approval: cargo install x");
}
