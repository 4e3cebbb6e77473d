//! The context-window meter of the composer toolbar: the pressure the
//! server reports picks the ink, the window may be absent ("used, no
//! denominator"), and a hover breakdown lists the exact counts.
use vstd::prelude::*;

use crate::ink::InkRole;
use crate::text::{
    decimal, decimal_chars, digit_char, extend_str, grouped, lemma_grouping_keeps_the_digits, not_comma,
    string_from, thousands,
};

verus! {

/// How much context pressure the server reports. The thresholds are the
/// server's; the meter renders what it is told.
#[derive(Debug, Clone, Copy, PartialEq, Eq, Structural)]
pub enum ContextPressure {
    /// Room to spare.
    Normal,
    /// Close to the limit; the ring and the number go warning-coloured.
    Warning,
    /// Over the limit: the composer refuses to send and the meter offers
    /// compaction inline.
    Blocked,
}

impl Default for ContextPressure {
    fn default() -> (p: Self)
        ensures
            p == ContextPressure::Normal,
    {
        ContextPressure::Normal
    }
}

/// Everything the meter draws. `window_tokens` is `None` when the basis has
/// no limit.
#[derive(Debug, Clone, Copy, PartialEq, Eq, Structural)]
pub struct ContextMeterState {
    /// Tokens in use.
    pub used_tokens: u64,
    /// The window, absent when the basis has no limit.
    pub window_tokens: Option<u64>,
    /// The server's pressure level.
    pub pressure: ContextPressure,
    /// Session cumulative prompt tokens.
    pub prompt_tokens: u64,
    /// Session cumulative output tokens.
    pub output_tokens: u64,
    /// Session cumulative total tokens.
    pub total_tokens: u64,
}

impl Default for ContextMeterState {
    fn default() -> (s: Self)
        ensures
            s == (ContextMeterState {
                used_tokens: 0,
                window_tokens: None,
                pressure: ContextPressure::Normal,
                prompt_tokens: 0,
                output_tokens: 0,
                total_tokens: 0,
            }),
    {
        ContextMeterState {
            used_tokens: 0,
            window_tokens: None,
            pressure: ContextPressure::Normal,
            prompt_tokens: 0,
            output_tokens: 0,
            total_tokens: 0,
        }
    }
}

/// `n` as the breakdown writes a count: decimal, grouped in threes.
pub open spec fn count_text(n: u64) -> Seq<char> {
    grouped(decimal(n as nat))
}

/// `n` as the ring's label rounds it: plain below a thousand, else in
/// thousands to one decimal place, half up, with a `k` (`19,328` reads
/// `19.3k`).
pub open spec fn rounded_count(n: u64) -> Seq<char> {
    if n < 1000 {
        decimal(n as nat)
    } else {
        let tenths: nat = ((n as nat) + 50) / 100;
        decimal(tenths / 10) + seq!['.', digit_char(tenths % 10), 'k']
    }
}

/// The ring's label is the used count rounded to the nearest hundred
/// (halves up) and written in thousands: below a thousand the count stands
/// as it is; from a thousand up it reads `<q>.<d>k`, where `q` thousands and
/// `d` hundreds lie within fifty tokens of the count — fewer than fifty
/// above it, at most fifty below it.
pub proof fn lemma_the_ring_rounds_to_hundreds(n: u64)
    ensures
        n < 1000 ==> rounded_count(n) == decimal(n as nat),
        n >= 1000 ==> exists|q: nat, d: nat|
            {
                &&& d < 10
                &&& #[trigger] rounded_count(n) == decimal(q) + seq!['.', digit_char(d), 'k']
                &&& (q * 10 + d) * 100 <= n + 50 < (q * 10 + d) * 100 + 100
                &&& q >= 1
            },
{
    if n >= 1000 {
        let t: nat = ((n as nat) + 50) / 100;
        let q = t / 10;
        let d = t % 10;
        assert(q * 10 + d == t);
        assert(t * 100 <= n + 50 < t * 100 + 100);
        assert(d < 10 && rounded_count(n) == decimal(q) + seq!['.', digit_char(d), 'k']);
    }
}

/// The five name/value rows of the breakdown, in order.
pub open spec fn breakdown_of(s: ContextMeterState) -> Seq<(Seq<char>, Seq<char>)> {
    seq![
        ("Used"@, count_text(s.used_tokens)),
        ("Window"@, match s.window_tokens {
            Some(w) => count_text(w),
            None => "no limit"@,
        }),
        ("Prompt (session)"@, count_text(s.prompt_tokens)),
        ("Output (session)"@, count_text(s.output_tokens)),
        ("Total (session)"@, count_text(s.total_tokens)),
    ]
}

/// The breakdown counts exactly: it lists used, window, prompt, output and
/// total in that order, each count being the number itself once its group
/// commas are taken out, and the window row says `no limit` exactly when
/// the basis has no window.
pub proof fn lemma_the_breakdown_counts_exactly(s: ContextMeterState)
    ensures
        ({
            let rows = breakdown_of(s);
            let plain = |t: Seq<char>| t.filter(|c: char| not_comma(c));
            &&& rows.len() == 5
            &&& rows[0].0 == "Used"@ && plain(rows[0].1) == decimal(s.used_tokens as nat)
            &&& rows[1].0 == "Window"@
            &&& (s.window_tokens matches Some(w) ==> plain(rows[1].1) == decimal(w as nat))
            &&& (s.window_tokens is None ==> rows[1].1 == "no limit"@)
            &&& rows[2].0 == "Prompt (session)"@ && plain(rows[2].1) == decimal(s.prompt_tokens as nat)
            &&& rows[3].0 == "Output (session)"@ && plain(rows[3].1) == decimal(s.output_tokens as nat)
            &&& rows[4].0 == "Total (session)"@ && plain(rows[4].1) == decimal(s.total_tokens as nat)
        }),
{
    lemma_grouping_keeps_the_digits(s.used_tokens as nat);
    lemma_grouping_keeps_the_digits(s.prompt_tokens as nat);
    lemma_grouping_keeps_the_digits(s.output_tokens as nat);
    lemma_grouping_keeps_the_digits(s.total_tokens as nat);
    if let Some(w) = s.window_tokens {
        lemma_grouping_keeps_the_digits(w as nat);
    }
}

impl ContextMeterState {
    /// Whether there is a denominator: a window that is present and not
    /// zero. Only then does the meter draw an arc and a percentage.
    pub fn has_window(&self) -> (b: bool)
        ensures
            b == (self.window_tokens matches Some(w) && w > 0),
    {
        match self.window_tokens {
            Some(w) => w > 0,
            None => false,
        }
    }

    /// The label beside the ring when there is no denominator: the used
    /// count, rounded, and the word `tokens` (`19.3k tokens`). The exact
    /// count belongs to the breakdown.
    pub fn tokens_label(&self) -> (label: String)
        ensures
            label@ == rounded_count(self.used_tokens) + " tokens"@,
    {
        let n = self.used_tokens;
        let mut out: Vec<char>;
        if n < 1000 {
            out = decimal_chars(n);
        } else {
            let up: u64 = if n % 100 >= 50 { 1 } else { 0 };
            let tenths: u64 = n / 100 + up;
            assert(tenths as nat == ((n as nat) + 50) / 100);
            out = decimal_chars(tenths / 10);
            out.push('.');
            out.push(((48 + tenths % 10) as u8) as char);
            out.push('k');
        }
        extend_str(&mut out, " tokens");
        string_from(&out)
    }

    /// The breakdown's window value: the grouped count, or `no limit`.
    pub fn window_label(&self) -> (label: String)
        ensures
            label@ == match self.window_tokens {
                Some(w) => count_text(w),
                None => "no limit"@,
            },
    {
        match self.window_tokens {
            Some(w) => thousands(w),
            None => "no limit".to_string(),
        }
    }

    /// The breakdown's rows: what the window is made of, as exact counts.
    pub fn breakdown(&self) -> (rows: Vec<(String, String)>)
        ensures
            rows@.map_values(|r: (String, String)| (r.0@, r.1@)) == breakdown_of(*self),
    {
        let mut rows: Vec<(String, String)> = Vec::new();
        rows.push(("Used".to_string(), thousands(self.used_tokens)));
        rows.push(("Window".to_string(), self.window_label()));
        rows.push(("Prompt (session)".to_string(), thousands(self.prompt_tokens)));
        rows.push(("Output (session)".to_string(), thousands(self.output_tokens)));
        rows.push(("Total (session)".to_string(), thousands(self.total_tokens)));
        assert(rows@.map_values(|r: (String, String)| (r.0@, r.1@)) =~= breakdown_of(*self));
        rows
    }
}

/// The ink the ring and the number take: status colour carries meaning here
/// and nowhere else on the meter.
pub fn pressure_ink(pressure: ContextPressure) -> (ink: InkRole)
    ensures
        ink == match pressure {
            ContextPressure::Normal => InkRole::Ink3,
            ContextPressure::Warning => InkRole::Warning,
            ContextPressure::Blocked => InkRole::Danger,
        },
{
    match pressure {
        ContextPressure::Normal => InkRole::Ink3,
        ContextPressure::Warning => InkRole::Warning,
        ContextPressure::Blocked => InkRole::Danger,
    }
}

/// The meter: its state, and whether the host pins the breakdown open or
/// shut instead of following the pointer.
#[derive(Debug)]
pub struct ContextMeter {
    /// Stable identity of the meter.
    pub id: String,
    /// What the meter draws.
    pub state: ContextMeterState,
    /// The breakdown forced open or shut; `None` follows the pointer.
    pub open: Option<bool>,
}

/// The meter for `state`; hover reveals the breakdown.
pub fn context_meter(id: &str, state: ContextMeterState) -> (m: ContextMeter)
    ensures
        m.id@ == id@,
        m.state == state,
        m.open is None,
{
    ContextMeter { id: id.to_string(), state, open: None }
}

impl ContextMeter {
    /// Forces the breakdown open (or shut) instead of following the pointer.
    pub fn open(self, open: bool) -> (m: Self)
        ensures
            m == (ContextMeter { open: Some(open), ..self }),
    {
        ContextMeter { open: Some(open), ..self }
    }

    /// Whether the breakdown shows: as pinned, else while hovered.
    pub fn shows_breakdown(&self, hovered: bool) -> (b: bool)
        ensures
            b == match self.open {
                Some(o) => o,
                None => hovered,
            },
    {
        match self.open {
            Some(o) => o,
            None => hovered,
        }
    }

    /// Whether the Compact action sits inline beside the number: only at
    /// [`ContextPressure::Blocked`], and only when the host handles it.
    pub fn inline_compact(&self, handled: bool) -> (b: bool)
        ensures
            b == (self.state.pressure == ContextPressure::Blocked && handled),
    {
        handled && match self.state.pressure {
            ContextPressure::Blocked => true,
            _ => false,
        }
    }
}

} // verus!
