use aui::data::context_meter::{context_meter, pressure_ink, ContextMeterState, ContextPressure};
use aui::ink::InkRole;
use aui::text::thousands;

#[test]
fn a_window_of_zero_is_no_denominator() {
    let state = ContextMeterState { used_tokens: 10, window_tokens: Some(0), ..Default::default() };
    assert!(!state.has_window());
    assert_eq!(state.tokens_label(), "10 tokens");
}

#[test]
fn counts_are_grouped() {
    assert_eq!(thousands(0), "0");
    assert_eq!(thousands(999), "999");
    assert_eq!(thousands(1_007_997), "1,007,997");
}

#[test]
fn a_window_is_a_denominator_only_when_present_and_not_zero() {
    let with = ContextMeterState { used_tokens: 500, window_tokens: Some(1000), ..Default::default() };
    assert!(with.has_window());
    let none = ContextMeterState { used_tokens: 19_328, window_tokens: None, ..Default::default() };
    assert!(!none.has_window());
    assert_eq!(none.tokens_label(), "19.3k tokens");
}

#[test]
fn the_ring_label_rounds_where_the_breakdown_is_exact() {
    let at = |n: u64| ContextMeterState { used_tokens: n, window_tokens: None, ..Default::default() };
    assert_eq!(at(0).tokens_label(), "0 tokens");
    assert_eq!(at(999).tokens_label(), "999 tokens");
    assert_eq!(at(1_000).tokens_label(), "1.0k tokens");
    assert_eq!(at(19_349).tokens_label(), "19.3k tokens");
    assert_eq!(at(19_350).tokens_label(), "19.4k tokens");
    assert_eq!(at(19_960).tokens_label(), "20.0k tokens");
    assert_eq!(at(1_007_997).tokens_label(), "1008.0k tokens");
    assert_eq!(at(19_328).breakdown()[0].1, "19,328");
}

#[test]
fn the_breakdown_lists_exact_counts() {
    let state = ContextMeterState {
        used_tokens: 19_328,
        window_tokens: None,
        pressure: ContextPressure::Warning,
        prompt_tokens: 1_234_567,
        output_tokens: 12,
        total_tokens: 1_234_579,
    };
    let rows = state.breakdown();
    let expect = vec![
        ("Used", "19,328"),
        ("Window", "no limit"),
        ("Prompt (session)", "1,234,567"),
        ("Output (session)", "12"),
        ("Total (session)", "1,234,579"),
    ];
    let got: Vec<(&str, &str)> = rows.iter().map(|(a, b)| (a.as_str(), b.as_str())).collect();
    assert_eq!(got, expect);
    let windowed = ContextMeterState { window_tokens: Some(200_000), ..state };
    assert_eq!(windowed.window_label(), "200,000");
}

#[test]
fn pressure_alone_picks_the_ink() {
    assert_eq!(pressure_ink(ContextPressure::Normal), InkRole::Ink3);
    assert_eq!(pressure_ink(ContextPressure::Warning), InkRole::Warning);
    assert_eq!(pressure_ink(ContextPressure::Blocked), InkRole::Danger);
}

#[test]
fn compaction_sits_inline_only_when_blocked() {
    let blocked = ContextMeterState { pressure: ContextPressure::Blocked, ..Default::default() };
    let meter = context_meter("m", blocked);
    assert!(meter.inline_compact(true));
    assert!(!meter.inline_compact(false));
    assert!(!context_meter("m", ContextMeterState::default()).inline_compact(true));
    assert!(meter.shows_breakdown(true));
    assert!(!context_meter("m", blocked).open(false).shows_breakdown(true));
    assert!(context_meter("m", blocked).open(true).shows_breakdown(false));
}
