//! The `/` command menu and the `@` mention picker: their rows, the query
//! match a row highlights, and where the active row sits among the
//! popover's children.
use vstd::prelude::*;
use vstd::string::StringSliceAdditionalSpecFns;

use crate::nav::types::AgentState;
use crate::text::{find, occurs_at};
use vstd::utf8::encode_utf8;

verus! {

broadcast use vstd::string::group_string_axioms;

/// One row of the `/` menu.
#[derive(Debug, PartialEq)]
pub struct CommandItem {
    /// Stable identity, handed back when selected.
    pub id: String,
    /// The command as typed, leading slash included (`/review`).
    pub command: String,
    /// What the command does, or where a custom command comes from.
    pub description: String,
    /// The keycap at the right edge (`↩` on the selected row).
    pub key: Option<String>,
    /// The source tag at the right edge (`skill`, `project`).
    pub source_tag: Option<String>,
}

impl CommandItem {
    /// A command row.
    pub fn new(id: &str, command: &str, description: &str) -> (c: Self)
        ensures
            c.id@ == id@,
            c.command@ == command@,
            c.description@ == description@,
            c.key is None,
            c.source_tag is None,
    {
        CommandItem {
            id: id.to_string(),
            command: command.to_string(),
            description: description.to_string(),
            key: None,
            source_tag: None,
        }
    }

    /// Adds the keycap at the right edge.
    pub fn key(self, key: &str) -> (c: Self)
        ensures
            c == (CommandItem { key: c.key, ..self }),
            c.key matches Some(k) && k@ == key@,
    {
        CommandItem { key: Some(key.to_string()), ..self }
    }

    /// Adds the source tag at the right edge.
    pub fn source_tag(self, source_tag: &str) -> (c: Self)
        ensures
            c == (CommandItem { source_tag: c.source_tag, ..self }),
            c.source_tag matches Some(t) && t@ == source_tag@,
    {
        CommandItem { source_tag: Some(source_tag.to_string()), ..self }
    }
}

/// A titled block of command rows (`Built-in`, `Skills`, `Custom`).
#[derive(Debug, PartialEq)]
pub struct CommandSection {
    /// The caps header.
    pub title: String,
    /// The rows, in order.
    pub items: Vec<CommandItem>,
}

impl CommandSection {
    /// A section with its header and rows.
    pub fn new(title: &str, items: Vec<CommandItem>) -> (s: Self)
        ensures
            s.title@ == title@,
            s.items == items,
    {
        CommandSection { title: title.to_string(), items }
    }
}

/// The leading glyph of a mention row.
#[derive(Debug, Clone, PartialEq)]
pub enum MentionIcon {
    /// A line icon from the sprite, by name: a file, a folder or a globe.
    Glyph(String),
    /// The mono `ƒ` that marks a symbol.
    Symbol,
    /// A status dot: another worktree, in its agent state's colour.
    Dot(AgentState),
}

/// One row of the `@` picker.
#[derive(Debug, PartialEq)]
pub struct MentionItem {
    /// Stable identity, handed back when selected.
    pub id: String,
    /// The leading glyph.
    pub icon: MentionIcon,
    /// The name that would be inserted as a chip.
    pub label: String,
    /// The byte range of `label` that matched the query, drawn accent-ink
    /// 600. Empty means "highlight the query itself wherever it occurs".
    pub matched: core::ops::Range<usize>,
    /// The muted line after the label: a path, a symbol location or a note.
    pub detail: String,
    /// Whether the detail is mono 11 (paths, locations) rather than UI 12.
    pub detail_mono: bool,
    /// The keycap at the right edge (`↩` on the selected row).
    pub key: Option<String>,
}

/// The byte range of the first occurrence of `needle` in `label`, or
/// `None` when it does not occur (`str::find`).
pub fn first_match(label: &str, needle: &str) -> (r: Option<core::ops::Range<usize>>)
    ensures
        match r {
            Some(range) => range.end == range.start + needle.spec_bytes().len() && occurs_at(
                label.spec_bytes(),
                needle.spec_bytes(),
                range.start as int,
            ) && forall|j: int|
                0 <= j < range.start ==> !occurs_at(label.spec_bytes(), needle.spec_bytes(), j),
            None => forall|j: int| !occurs_at(label.spec_bytes(), needle.spec_bytes(), j),
        },
{
    let hay = label.as_bytes();
    let pat = needle.as_bytes();
    let hl = hay.len();
    let n = pat.len();
    match find(label, needle) {
        Some(at) => {
            assert(at + n <= hl);
            Some(core::ops::Range { start: at, end: at + n })
        },
        None => None,
    }
}

/// Whether `after` marks the first occurrence of `needle` in `hay` when it
/// occurs, and is `before` unchanged when it does not.
pub open spec fn marks_first_match(
    hay: Seq<u8>,
    needle: Seq<u8>,
    before: core::ops::Range<usize>,
    after: core::ops::Range<usize>,
) -> bool {
    if exists|j: int| occurs_at(hay, needle, j) {
        &&& occurs_at(hay, needle, after.start as int)
        &&& after.end == after.start + needle.len()
        &&& forall|j: int| 0 <= j < after.start ==> !occurs_at(hay, needle, j)
    } else {
        after == before
    }
}

impl MentionItem {
    /// A mention row with a UI-face detail line.
    pub fn new(id: &str, icon: MentionIcon, label: &str, detail: &str) -> (m: Self)
        ensures
            m.id@ == id@,
            m.icon == icon,
            m.label@ == label@,
            m.matched.start == 0 && m.matched.end == 0,
            m.detail@ == detail@,
            !m.detail_mono,
            m.key is None,
    {
        MentionItem {
            id: id.to_string(),
            icon,
            label: label.to_string(),
            matched: core::ops::Range { start: 0, end: 0 },
            detail: detail.to_string(),
            detail_mono: false,
            key: None,
        }
    }

    /// Draws the detail line as mono 11 (a path, a `file:line`).
    pub fn detail_mono(self) -> (m: Self)
        ensures
            m == (MentionItem { detail_mono: true, ..self }),
    {
        MentionItem { detail_mono: true, ..self }
    }

    /// Marks a byte range of the label as the query match.
    pub fn matched(self, range: core::ops::Range<usize>) -> (m: Self)
        ensures
            m == (MentionItem { matched: range, ..self }),
    {
        MentionItem { matched: range, ..self }
    }

    /// Marks the first occurrence of `needle` in the label as the query
    /// match; a needle that does not occur leaves the row as it was.
    pub fn matching(self, needle: &str) -> (m: Self)
        ensures
            m == (MentionItem { matched: m.matched, ..self }),
            marks_first_match(encode_utf8(self.label@), needle.spec_bytes(), self.matched, m.matched),
    {
        let found = {
            let l = self.label.as_str();
            assert(l.spec_bytes() == encode_utf8(self.label@));
            first_match(l, needle)
        };
        match found {
            Some(range) => self.matched(range),
            None => self,
        }
    }

    /// Adds the keycap at the right edge.
    pub fn key(self, key: &str) -> (m: Self)
        ensures
            m == (MentionItem { key: m.key, ..self }),
            m.key matches Some(k) && k@ == key@,
    {
        MentionItem { key: Some(key.to_string()), ..self }
    }
}

/// A titled block of mention rows (`Files in acme-web`, `Symbols`).
#[derive(Debug, PartialEq)]
pub struct MentionSection {
    /// The caps header.
    pub title: String,
    /// The rows, in order.
    pub items: Vec<MentionItem>,
}

impl MentionSection {
    /// A section with its header and rows.
    pub fn new(title: &str, items: Vec<MentionItem>) -> (s: Self)
        ensures
            s.title@ == title@,
            s.items == items,
    {
        MentionSection { title: title.to_string(), items }
    }
}

/// How many of the sections `counts` the row index `remaining` runs past:
/// each section whose rows all lie before the row counts once.
pub open spec fn sections_before(counts: Seq<usize>, remaining: int) -> int
    decreases counts.len(),
{
    if counts.len() == 0 || remaining < counts[0] {
        0
    } else {
        1 + sections_before(counts.drop_first(), remaining - counts[0])
    }
}

/// The direct-child index of the `active`th row inside a popover whose
/// sections hold `counts` rows: one caps header leads every section, so the
/// child index leads the row index by one plus the headers of the sections
/// the row comes after.
pub open spec fn child_index(counts: Seq<usize>, active: int) -> int {
    active + 1 + sections_before(counts, active)
}

proof fn lemma_sections_before_bounded(counts: Seq<usize>, remaining: int)
    ensures
        0 <= sections_before(counts, remaining) <= counts.len(),
    decreases counts.len(),
{
    if counts.len() > 0 && remaining >= counts[0] {
        lemma_sections_before_bounded(counts.drop_first(), remaining - counts[0]);
    }
}

/// The direct-child index of the `active`th row inside the popover: rows
/// are interrupted by one caps header per section, so the child index leads
/// the row index by the headers before it — for a row inside the popover,
/// `active + 1 + k` with `k` the first section whose running total passes
/// `active`. A later row always sits at a later child
/// ([`lemma_child_index_increases`]).
pub fn row_child_index(counts: &[usize], active: usize) -> (child: usize)
    requires
        active + 1 + counts@.len() <= usize::MAX,
    ensures
        child == child_index(counts@, active as int),
        active < rows_through(counts@, counts@.len() as int) ==> exists|k: int|
            {
                &&& 0 <= k < counts@.len()
                &&& child == active + 1 + k
                &&& active < #[trigger] rows_through(counts@, k + 1)
                &&& forall|j: int| 0 <= j < k ==> #[trigger] rows_through(counts@, j + 1) <= active
            },
{
    proof {
        if active < rows_through(counts@, counts@.len() as int) {
            lemma_child_index_by_running_totals(counts@, active as int);
        }
    }
    let mut child = active + 1;
    let mut remaining = active;
    let mut i: usize = 0;
    proof {
        lemma_sections_before_bounded(counts@, active as int);
        assert(counts@.skip(0) == counts@);
    }
    while i < counts.len()
        invariant
            i <= counts@.len(),
            active + 1 + counts@.len() <= usize::MAX,
            remaining <= active,
            child == active + 1 + i,
            sections_before(counts@, active as int) == i + sections_before(
                counts@.skip(i as int),
                remaining as int,
            ),
        ensures
            child == active + 1 + i,
            sections_before(counts@, active as int) == i,
        decreases counts@.len() - i,
    {
        assert(counts@.skip(i as int).len() > 0);
        let count = counts[i];
        assert(counts@.skip(i as int)[0] == count);
        if remaining < count {
            assert(sections_before(counts@.skip(i as int), remaining as int) == 0);
            break;
        }
        assert(counts@.skip(i as int).drop_first() == counts@.skip(i + 1));
        remaining = remaining - count;
        child = child + 1;
        i = i + 1;
        assert(i == counts@.len() ==> counts@.skip(i as int).len() == 0);
    }
    child
}

proof fn lemma_sections_before_monotone(counts: Seq<usize>, a: int, b: int)
    requires
        a <= b,
    ensures
        sections_before(counts, a) <= sections_before(counts, b),
    decreases counts.len(),
{
    lemma_sections_before_bounded(counts, b);
    if counts.len() > 0 && a >= counts[0] {
        lemma_sections_before_monotone(counts.drop_first(), a - counts[0], b - counts[0]);
    }
}

/// Rows keep their order among the popover's children: a later row always
/// sits at a later child index, so the scroll target of two distinct rows
/// is never the same child.
pub proof fn lemma_child_index_increases(counts: Seq<usize>, a: int, b: int)
    requires
        0 <= a < b,
    ensures
        child_index(counts, a) < child_index(counts, b),
{
    lemma_sections_before_monotone(counts, a, b);
}

/// The rows of the first `n` sections: `counts[0] + .. + counts[n - 1]`.
pub open spec fn rows_through(counts: Seq<usize>, n: int) -> int
    decreases counts.len(),
{
    if n <= 0 || counts.len() == 0 {
        0
    } else {
        counts[0] + rows_through(counts.drop_first(), n - 1)
    }
}

/// The headers a row comes after, by running totals: for a row inside the
/// popover (`active` below the total of all sections), the child index is
/// `active + 1 + k`, where `k` is the first section whose running total
/// passes `active` — the row's own section. Its header and one header per
/// section before it, empty sections included, lead the row.
pub proof fn lemma_child_index_by_running_totals(counts: Seq<usize>, active: int)
    requires
        0 <= active < rows_through(counts, counts.len() as int),
    ensures
        ({
            let k = sections_before(counts, active);
            &&& child_index(counts, active) == active + 1 + k
            &&& 0 <= k < counts.len()
            &&& active < rows_through(counts, k + 1)
            &&& forall|j: int| 0 <= j < k ==> #[trigger] rows_through(counts, j + 1) <= active
        }),
    decreases counts.len(),
{
    let k = sections_before(counts, active);
    if active >= counts[0] {
        let rest = counts.drop_first();
        let a = active - counts[0];
        assert(rows_through(counts, counts.len() as int) == counts[0] + rows_through(rest, rest.len() as int));
        lemma_child_index_by_running_totals(rest, a);
        let k1 = sections_before(rest, a);
        assert(k == 1 + k1);
        assert(rows_through(counts, k + 1) == counts[0] + rows_through(rest, k1 + 1));
        assert forall|j: int| 0 <= j < k implies #[trigger] rows_through(counts, j + 1) <= active by {
            if j > 0 {
                assert(rows_through(counts, j + 1) == counts[0] + rows_through(rest, (j - 1) + 1));
            } else {
                assert(rows_through(counts, 1) == counts[0] + rows_through(rest, 0));
            }
        }
    } else {
        assert(rows_through(counts, 1) == counts[0] + rows_through(counts.drop_first(), 0));
    }
}

/// Whether row `target` is on screen: it has been laid out and lies between
/// the first and the last visible child.
pub fn row_visible(measured: bool, top: usize, bottom: usize, target: usize) -> (b: bool)
    ensures
        b == (measured && top <= target <= bottom),
{
    measured && top <= target && target <= bottom
}

/// The keyboard scroll a menu keeps between frames: the child it last
/// scrolled to, and whether that child has been seen on screen since.
#[derive(Debug, Clone, Copy, PartialEq, Eq, Structural)]
pub struct MenuScroll {
    /// The child index last asked for.
    pub target: usize,
    /// Whether the target has been seen on screen.
    pub settled: bool,
}

/// What a menu asks of its scroll this frame.
#[derive(Debug, Clone, Copy, PartialEq, Eq, Structural)]
pub enum ScrollAsk {
    /// Leave the scroll alone.
    Nothing,
    /// Scroll the child into view and ask for another frame to check.
    ScrollTo(usize),
}

impl MenuScroll {
    /// The scroll before any row was asked for.
    pub fn new() -> (m: Self)
        ensures
            m.target == usize::MAX,
            !m.settled,
    {
        MenuScroll { target: usize::MAX, settled: false }
    }

    /// One frame: `target` is the active row's child index and `visible`
    /// whether it is on screen now. A new target starts over; an unsettled
    /// target that is on screen settles; one that is not is scrolled to,
    /// again every frame, until it is. A settled target is left alone, so
    /// the person's own scrolling is never fought.
    pub fn step(self, target: usize, visible: bool) -> (r: (MenuScroll, ScrollAsk))
        ensures
            r.0.target == target,
            self.target == target && self.settled ==> r == (self, ScrollAsk::Nothing),
            !(self.target == target && self.settled) ==> if visible {
                r.0.settled && r.1 == ScrollAsk::Nothing
            } else {
                !r.0.settled && r.1 == ScrollAsk::ScrollTo(target)
            },
    {
        let mut kept = self;
        if kept.target != target {
            kept.target = target;
            kept.settled = false;
        }
        if kept.settled {
            (kept, ScrollAsk::Nothing)
        } else if visible {
            kept.settled = true;
            (kept, ScrollAsk::Nothing)
        } else {
            (kept, ScrollAsk::ScrollTo(target))
        }
    }
}

} // verus!
