//! Inline banners: one line of the transcript or the pane with an icon, the
//! message and up to two xs buttons. Only the states that need the person
//! are tinted.
use vstd::prelude::*;
use vstd::string::StringSliceAdditionalSpecFns;

use crate::data::button::{button, Button, ButtonSize, ButtonVariant};
use crate::ink::PaletteRole;
use crate::text::{extend_str, string_from};
use vstd::utf8::encode_utf8;

verus! {

broadcast use vstd::string::group_string_axioms;

/// Which state a banner reports; it picks the icon, the ink and whether the
/// row is tinted.
#[derive(Debug, Clone, Copy, PartialEq, Eq, Structural)]
pub enum BannerKind {
    /// The agent needs the person: warning shield on the warning-soft ground.
    Waiting,
    /// A fact about the session: the info clock on the plain surface.
    Info,
    /// Something failed: the danger `x` on the danger-soft ground.
    Error,
    /// A quiet "it worked" line: the success dot on the plain surface.
    Success,
}

impl Default for BannerKind {
    fn default() -> (k: Self)
        ensures
            k == BannerKind::Info,
    {
        BannerKind::Info
    }
}

impl BannerKind {
    /// The row's ground and border.
    pub fn surface(self) -> (r: (PaletteRole, PaletteRole))
        ensures
            r == match self {
                BannerKind::Waiting => (PaletteRole::WarningSoft, PaletteRole::WarningSoft),
                BannerKind::Error => (PaletteRole::DangerSoft, PaletteRole::DangerSoft),
                _ => (PaletteRole::Surface1, PaletteRole::Line),
            },
    {
        match self {
            BannerKind::Waiting => (PaletteRole::WarningSoft, PaletteRole::WarningSoft),
            BannerKind::Error => (PaletteRole::DangerSoft, PaletteRole::DangerSoft),
            BannerKind::Info | BannerKind::Success => (PaletteRole::Surface1, PaletteRole::Line),
        }
    }

    /// The leading glyph's name and ink; `None` for a success line, which
    /// leads with a status dot instead.
    pub fn glyph(self) -> (r: Option<(&'static str, PaletteRole)>)
        ensures
            match self {
                BannerKind::Waiting => r matches Some((g, ink)) && g@ == "shield"@ && ink == PaletteRole::Warning,
                BannerKind::Info => r matches Some((g, ink)) && g@ == "clock"@ && ink == PaletteRole::Info,
                BannerKind::Error => r matches Some((g, ink)) && g@ == "x"@ && ink == PaletteRole::Danger,
                BannerKind::Success => r is None,
            },
    {
        match self {
            BannerKind::Waiting => Some(("shield", PaletteRole::Warning)),
            BannerKind::Info => Some(("clock", PaletteRole::Info)),
            BannerKind::Error => Some(("x", PaletteRole::Danger)),
            BannerKind::Success => None,
        }
    }
}

/// One run of a banner's message: a line mixes weights and faces.
#[derive(Debug)]
pub enum BannerRun {
    /// Plain UI text.
    Text(String),
    /// The leading clause, 600.
    Bold(String),
    /// A command or a path, in the mono face.
    Mono(String),
}

/// How a banner's button is drawn.
#[derive(Debug, Clone, Copy, PartialEq, Eq, Structural)]
pub enum BannerActionStyle {
    /// Accent fill: the action the person is being asked for.
    Primary,
    /// The filled, bordered default.
    Secondary,
    /// Quiet, for dismissals.
    Subtle,
}

impl Default for BannerActionStyle {
    fn default() -> (s: Self)
        ensures
            s == BannerActionStyle::Secondary,
    {
        BannerActionStyle::Secondary
    }
}

/// The characters of a run.
pub open spec fn run_text(r: BannerRun) -> Seq<char> {
    match r {
        BannerRun::Text(t) => t@,
        BannerRun::Bold(t) => t@,
        BannerRun::Mono(t) => t@,
    }
}

/// The first `k` runs, joined.
pub open spec fn joined(runs: Seq<BannerRun>, k: int) -> Seq<char>
    decreases k,
{
    if k <= 0 {
        Seq::empty()
    } else {
        joined(runs, k - 1) + run_text(runs[k - 1])
    }
}

/// The byte ranges of the joined text that the bold runs among the first
/// `k` cover, in order.
pub open spec fn bold_ranges(runs: Seq<BannerRun>, k: int) -> Seq<core::ops::Range<usize>>
    decreases k,
{
    if k <= 0 {
        Seq::empty()
    } else if runs[k - 1] is Bold {
        bold_ranges(runs, k - 1).push(
            core::ops::Range {
                start: encode_utf8(joined(runs, k - 1)).len() as usize,
                end: encode_utf8(joined(runs, k)).len() as usize,
            },
        )
    } else {
        bold_ranges(runs, k - 1)
    }
}

/// Whether any run is mono.
pub open spec fn has_mono(runs: Seq<BannerRun>) -> bool {
    exists|i: int| 0 <= i < runs.len() && (#[trigger] runs[i]) is Mono
}

/// How the message is laid out.
#[derive(Debug)]
pub enum BannerMessage {
    /// A line that carries a mono run: a row of sibling runs that does not
    /// wrap (a highlight cannot change the font family).
    Runs,
    /// A line of plain and bold runs: one text that wraps, with the bold
    /// runs' byte ranges drawn 600 in ink.
    Styled {
        /// The runs joined.
        text: String,
        /// The byte ranges of the bold runs, in order.
        bold: Vec<core::ops::Range<usize>>,
    },
}

proof fn lemma_encode_concat(a: Seq<char>, b: Seq<char>)
    ensures
        encode_utf8(a + b) == encode_utf8(a) + encode_utf8(b),
    decreases a.len(),
{
    if a.len() == 0 {
        assert(a + b =~= b);
    } else {
        lemma_encode_concat(a.drop_first(), b);
        assert((a + b)[0] == a[0]);
        assert((a + b).drop_first() =~= a.drop_first() + b);
        let s = encode_scalar_of(a[0]);
        assert(encode_utf8(a + b) =~= s + encode_utf8(a.drop_first() + b));
        assert(encode_utf8(a) =~= s + encode_utf8(a.drop_first()));
    }
}

spec fn encode_scalar_of(c: char) -> Seq<u8> {
    vstd::utf8::encode_scalar(c as u32)
}

proof fn lemma_joined_bytes_grow(runs: Seq<BannerRun>, i: int, n: int)
    requires
        0 <= i <= n,
    ensures
        encode_utf8(joined(runs, i)).len() <= encode_utf8(joined(runs, n)).len(),
    decreases n - i,
{
    if i < n {
        lemma_joined_bytes_grow(runs, i, n - 1);
        lemma_encode_concat(joined(runs, n - 1), run_text(runs[n - 1]));
    }
}

/// The text of a run.
fn text_of(run: &BannerRun) -> (t: &str)
    ensures
        t@ == run_text(*run),
{
    match run {
        BannerRun::Text(t) => t.as_str(),
        BannerRun::Bold(t) => t.as_str(),
        BannerRun::Mono(t) => t.as_str(),
    }
}

/// Whether the bytes `start..end` of `text` are exactly the UTF-8 of one of
/// the bold runs among the first `k`.
pub open spec fn covers_a_bold_run(runs: Seq<BannerRun>, k: int, text: Seq<u8>, start: int, end: int) -> bool {
    exists|j: int|
        0 <= j < k && (#[trigger] runs[j]) is Bold && text.subrange(start, end) == encode_utf8(run_text(runs[j]))
}

/// The bold ranges mark the bold runs and nothing else: there is one range
/// per bold run, in order and without overlap, each inside the joined text
/// and spanning exactly the UTF-8 bytes of its run's words.
pub proof fn lemma_bold_ranges_mark_the_bold_runs(runs: Seq<BannerRun>, k: int)
    requires
        0 <= k <= runs.len(),
        encode_utf8(joined(runs, k)).len() <= usize::MAX,
    ensures
        bold_ranges(runs, k).len() == runs.take(k).filter(|r: BannerRun| r is Bold).len(),
        forall|i: int|
            0 <= i < bold_ranges(runs, k).len() ==> {
                let r = #[trigger] bold_ranges(runs, k)[i];
                &&& r.start <= r.end <= encode_utf8(joined(runs, k)).len()
                &&& covers_a_bold_run(runs, k, encode_utf8(joined(runs, k)), r.start as int, r.end as int)
            },
        forall|i: int, j: int|
            0 <= i < j < bold_ranges(runs, k).len() ==> (#[trigger] bold_ranges(runs, k)[i]).end
                <= (#[trigger] bold_ranges(runs, k)[j]).start,
    decreases k,
{
    reveal_with_fuel(Seq::filter, 1);
    if k > 0 {
        let prev = joined(runs, k - 1);
        let here = joined(runs, k);
        lemma_encode_concat(prev, run_text(runs[k - 1]));
        let ep = encode_utf8(prev);
        let eh = encode_utf8(here);
        assert(eh == ep + encode_utf8(run_text(runs[k - 1])));
        lemma_bold_ranges_mark_the_bold_runs(runs, k - 1);
        assert(runs.take(k).drop_last() == runs.take(k - 1));
        assert(runs.take(k).last() == runs[k - 1]);
        let a = bold_ranges(runs, k - 1);
        let all = bold_ranges(runs, k);
        assert forall|i: int| 0 <= i < a.len() implies {
            let r = #[trigger] a[i];
            &&& r.start <= r.end <= eh.len()
            &&& covers_a_bold_run(runs, k, eh, r.start as int, r.end as int)
        } by {
            let r = a[i];
            assert(covers_a_bold_run(runs, k - 1, ep, r.start as int, r.end as int));
            let j = choose|j: int|
                0 <= j < k - 1 && (#[trigger] runs[j]) is Bold && ep.subrange(r.start as int, r.end as int)
                    == encode_utf8(run_text(runs[j]));
            assert(eh.subrange(r.start as int, r.end as int) == ep.subrange(r.start as int, r.end as int));
        }
        if runs[k - 1] is Bold {
            let r = core::ops::Range { start: ep.len() as usize, end: eh.len() as usize };
            assert(all == a.push(r));
            assert(eh.subrange(ep.len() as int, eh.len() as int) == encode_utf8(run_text(runs[k - 1])));
            assert(covers_a_bold_run(runs, k, eh, r.start as int, r.end as int));
            assert forall|i: int| 0 <= i < all.len() implies {
                let q = #[trigger] all[i];
                &&& q.start <= q.end <= eh.len()
                &&& covers_a_bold_run(runs, k, eh, q.start as int, q.end as int)
            } by {
                if i < a.len() {
                    assert(all[i] == a[i]);
                }
            }
            assert forall|i: int, j: int| 0 <= i < j < all.len() implies (#[trigger] all[i]).end <= (
            #[trigger] all[j]).start by {
                if j < a.len() {
                    assert(all[i] == a[i] && all[j] == a[j]);
                } else {
                    assert(all[i] == a[i]);
                }
            }
        } else {
            assert(all == a);
        }
    }
}

/// The message's layout: a row of runs when any run is mono, else the runs
/// joined into one text with the bold runs' byte ranges.
pub fn banner_message(runs: &[BannerRun]) -> (m: BannerMessage)
    requires
        encode_utf8(joined(runs@, runs@.len() as int)).len() <= usize::MAX,
    ensures
        has_mono(runs@) <==> m is Runs,
        m matches BannerMessage::Styled { text, bold } ==> text@ == joined(runs@, runs@.len() as int)
            && bold@ == bold_ranges(runs@, runs@.len() as int),
{
    let n = runs.len();
    let mut i: usize = 0;
    while i < n
        invariant
            i <= n,
            n == runs@.len(),
            forall|j: int| 0 <= j < i ==> !(#[trigger] runs@[j] is Mono),
        decreases n - i,
    {
        if let BannerRun::Mono(_) = &runs[i] {
            assert(runs@[i as int] is Mono);
            return BannerMessage::Runs;
        }
        i = i + 1;
    }
    let mut text: Vec<char> = Vec::new();
    let mut bytes: usize = 0;
    let mut bold: Vec<core::ops::Range<usize>> = Vec::new();
    let mut k: usize = 0;
    while k < n
        invariant
            k <= n,
            n == runs@.len(),
            encode_utf8(joined(runs@, n as int)).len() <= usize::MAX,
            text@ == joined(runs@, k as int),
            bytes == encode_utf8(text@).len(),
            bold@ == bold_ranges(runs@, k as int),
        decreases n - k,
    {
        let t = text_of(&runs[k]);
        let tb = t.len();
        proof {
            assert(t.spec_bytes() == encode_utf8(t@));
            lemma_encode_concat(joined(runs@, k as int), run_text(runs@[k as int]));
            lemma_joined_bytes_grow(runs@, k + 1, n as int);
        }
        let start = bytes;
        extend_str(&mut text, t);
        bytes = bytes + tb;
        if let BannerRun::Bold(_) = &runs[k] {
            bold.push(core::ops::Range { start, end: bytes });
        }
        k = k + 1;
    }
    BannerMessage::Styled { text: string_from(&text), bold }
}

/// A banner: its kind, its message, and up to two buttons.
#[derive(Debug)]
pub struct Banner {
    /// Stable identity of the banner.
    pub id: String,
    /// The state it reports.
    pub kind: BannerKind,
    /// The message's runs.
    pub runs: Vec<BannerRun>,
    /// The xs button at the right end of the row.
    pub action: Option<(String, BannerActionStyle)>,
    /// A second button, drawn to the left of the action.
    pub secondary: Option<(String, BannerActionStyle)>,
}

/// A one-line banner in `kind`'s colours carrying `runs`.
pub fn banner(id: &str, kind: BannerKind, runs: Vec<BannerRun>) -> (b: Banner)
    ensures
        b.id@ == id@,
        b.kind == kind,
        b.runs == runs,
        b.action is None,
        b.secondary is None,
{
    Banner { id: id.to_string(), kind, runs, action: None, secondary: None }
}

/// The variant a banner button style draws with.
pub open spec fn style_variant(style: BannerActionStyle) -> ButtonVariant {
    match style {
        BannerActionStyle::Primary => ButtonVariant::Primary,
        BannerActionStyle::Secondary => ButtonVariant::Secondary,
        BannerActionStyle::Subtle => ButtonVariant::Subtle,
    }
}

/// A banner's xs button in the requested style.
pub fn action_button(id: &str, label: &str, style: BannerActionStyle) -> (b: Button)
    ensures
        b.id@ == id@,
        b.label matches Some(l) && l@ == label@,
        b.size == ButtonSize::Xs,
        b.variant == style_variant(style),
        !b.square && !b.muted && !b.disabled,
{
    let b = button(id, label).xs();
    match style {
        BannerActionStyle::Primary => b.primary(),
        BannerActionStyle::Secondary => b,
        BannerActionStyle::Subtle => b.ghost(),
    }
}

impl Banner {
    /// The button at the right end of the row.
    pub fn action(self, label: &str, style: BannerActionStyle) -> (b: Self)
        ensures
            b == (Banner { action: b.action, ..self }),
            b.action matches Some((l, s)) && l@ == label@ && s == style,
    {
        Banner { action: Some((label.to_string(), style)), ..self }
    }

    /// A second button, drawn to the left of the action: the way out beside
    /// the way through.
    pub fn secondary_action(self, label: &str, style: BannerActionStyle) -> (b: Self)
        ensures
            b == (Banner { secondary: b.secondary, ..self }),
            b.secondary matches Some((l, s)) && l@ == label@ && s == style,
    {
        Banner { secondary: Some((label.to_string(), style)), ..self }
    }

    /// The row's buttons, left to right: the secondary, then the action.
    pub fn buttons(&self) -> (out: Vec<Button>)
        ensures
            out@.len() == (if self.secondary is Some { 1int } else { 0 }) + (if self.action is Some {
                1int
            } else {
                0
            }),
            self.secondary matches Some((l, s)) ==> out@[0].label matches Some(t) && t@ == l@
                && out@[0].variant == style_variant(s),
            self.action matches Some((l, s)) ==> out@.last().label matches Some(t) && t@ == l@
                && out@.last().variant == style_variant(s),
            forall|i: int| 0 <= i < out@.len() ==> (#[trigger] out@[i]).size == ButtonSize::Xs,
    {
        let mut out: Vec<Button> = Vec::new();
        if let Some((label, style)) = &self.secondary {
            out.push(action_button("secondary", label.as_str(), *style));
        }
        if let Some((label, style)) = &self.action {
            out.push(action_button("action", label.as_str(), *style));
        }
        out
    }
}

} // verus!
