//! The command palette: its rows and sections, the query match a row
//! highlights, which row holds the single highlight, and what the query row
//! shows. The host owns the query, the sections and the selection.
use vstd::prelude::*;
use vstd::string::StringSliceAdditionalSpecFns;

use crate::composer::menus::first_match;
use crate::text::occurs_at;
use crate::ink::InkRole;
use crate::nav::types::AgentState;
use vstd::utf8::encode_utf8;

verus! {

broadcast use vstd::string::group_string_axioms;

/// The leading glyph of a palette row.
#[derive(Debug)]
pub enum PaletteIcon {
    /// A line icon from the sprite, by name (ink-3, ink when highlighted).
    Glyph(String),
    /// A status dot in the agent state's colour.
    Dot(AgentState),
    /// A project mark.
    Mark {
        /// The mark's initial.
        initial: String,
    },
}

/// One row of the palette.
#[derive(Debug)]
pub struct PaletteItem {
    /// Stable identity, handed back when the row is chosen.
    pub id: String,
    /// The leading glyph.
    pub icon: PaletteIcon,
    /// The row label.
    pub label: String,
    /// Byte ranges of `label` that matched the query, drawn accent-ink 600.
    pub matched: Vec<core::ops::Range<usize>>,
    /// Muted mono context after the label (a worktree's repo).
    pub context: Option<String>,
    /// A status pill after the label ("needs you").
    pub badge: Option<String>,
    /// The shortcut keycaps at the right edge.
    pub keys: Vec<String>,
}

impl PaletteItem {
    /// A row with an icon and a label and nothing else.
    pub fn new(id: &str, icon: PaletteIcon, label: &str) -> (it: Self)
        ensures
            it.id@ == id@,
            it.icon == icon,
            it.label@ == label@,
            it.matched@.len() == 0,
            it.context is None,
            it.badge is None,
            it.keys@.len() == 0,
    {
        PaletteItem {
            id: id.to_string(),
            icon,
            label: label.to_string(),
            matched: Vec::new(),
            context: None,
            badge: None,
            keys: Vec::new(),
        }
    }

    /// Marks a byte range of the label as a query match.
    pub fn matched(self, range: core::ops::Range<usize>) -> (it: Self)
        ensures
            it == (PaletteItem { matched: it.matched, ..self }),
            it.matched@ == self.matched@.push(range),
    {
        let mut it = self;
        it.matched.push(range);
        it
    }

    /// Marks the first occurrence of `needle` in the label as a query match;
    /// a needle that does not occur leaves the row as it was.
    pub fn matching(self, needle: &str) -> (it: Self)
        ensures
            it == (PaletteItem { matched: it.matched, ..self }),
            (exists|j: int| occurs_at(encode_utf8(self.label@), needle.spec_bytes(), j)) ==> {
                let r = it.matched@.last();
                &&& it.matched@.len() == self.matched@.len() + 1
                &&& it.matched@.drop_last() == self.matched@
                &&& occurs_at(encode_utf8(self.label@), needle.spec_bytes(), r.start as int)
                &&& r.end == r.start + needle.spec_bytes().len()
                &&& forall|j: int|
                    0 <= j < r.start ==> !occurs_at(encode_utf8(self.label@), needle.spec_bytes(), j)
            },
            !(exists|j: int| occurs_at(encode_utf8(self.label@), needle.spec_bytes(), j)) ==> it.matched@
                == self.matched@,
    {
        let found = {
            let l = self.label.as_str();
            assert(l.spec_bytes() == encode_utf8(self.label@));
            first_match(l, needle)
        };
        match found {
            Some(range) => {
                let it = self.matched(range);
                assert(it.matched@.drop_last() == self.matched@);
                it
            },
            None => self,
        }
    }

    /// Adds the muted mono context after the label.
    pub fn context(self, context: &str) -> (it: Self)
        ensures
            it == (PaletteItem { context: it.context, ..self }),
            it.context matches Some(c) && c@ == context@,
    {
        PaletteItem { context: Some(context.to_string()), ..self }
    }

    /// Adds the status pill after the label.
    pub fn badge(self, badge: &str) -> (it: Self)
        ensures
            it == (PaletteItem { badge: it.badge, ..self }),
            it.badge matches Some(b) && b@ == badge@,
    {
        PaletteItem { badge: Some(badge.to_string()), ..self }
    }

    /// Adds one keycap to the right-hand hint.
    pub fn key(self, key: &str) -> (it: Self)
        ensures
            it == (PaletteItem { keys: it.keys, ..self }),
            it.keys@.len() == self.keys@.len() + 1,
            it.keys@.drop_last() == self.keys@,
            it.keys@.last()@ == key@,
    {
        let mut it = self;
        it.keys.push(key.to_string());
        assert(it.keys@.drop_last() == self.keys@);
        it
    }
}

/// A titled block of rows (`Worktrees`, `Actions`, `Files`).
#[derive(Debug)]
pub struct PaletteSection {
    /// The caps header.
    pub title: String,
    /// The rows, in order.
    pub items: Vec<PaletteItem>,
}

impl PaletteSection {
    /// A section with its header and rows.
    pub fn new(title: &str, items: Vec<PaletteItem>) -> (s: Self)
        ensures
            s.title@ == title@,
            s.items == items,
    {
        PaletteSection { title: title.to_string(), items }
    }
}

/// The palette: the query, its placeholder, the sections and the selected
/// row, which indexes the rows of all sections in order as the arrow keys
/// walk them.
#[derive(Debug)]
pub struct CommandPalette {
    /// Stable identity of the palette.
    pub id: String,
    /// The query as typed.
    pub query: String,
    /// The ink-4 text shown while the query is empty.
    pub placeholder: String,
    /// The sections, in order.
    pub sections: Vec<PaletteSection>,
    /// The keyboard's row, across all sections.
    pub selected: usize,
    /// Whether the palette is open; `false` plays the exit.
    pub present: bool,
}

/// The palette over `sections`, showing `query`, with the `selected`-th row
/// (across all sections) under the keyboard.
pub fn command_palette(id: &str, query: &str, sections: Vec<PaletteSection>, selected: usize) -> (p: CommandPalette)
    ensures
        p.id@ == id@,
        p.query@ == query@,
        p.placeholder@.len() == 0,
        p.sections == sections,
        p.selected == selected,
        p.present,
{
    CommandPalette {
        id: id.to_string(),
        query: query.to_string(),
        placeholder: String::new(),
        sections,
        selected,
        present: true,
    }
}

/// The row that holds the palette's single highlight: the hovered row while
/// the pointer is over one, otherwise the keyboard's selection.
pub fn active_row(hovered: Option<usize>, selected: usize) -> (row: usize)
    ensures
        row == match hovered {
            Some(h) => h,
            None => selected,
        },
{
    match hovered {
        Some(h) => h,
        None => selected,
    }
}

/// How many rows the sections before `k` hold.
pub open spec fn rows_before(sections: Seq<PaletteSection>, k: int) -> int
    decreases k,
{
    if k <= 0 {
        0
    } else {
        rows_before(sections, k - 1) + sections[k - 1].items@.len()
    }
}

impl CommandPalette {
    /// The ink-4 text shown in the query row while the query is empty.
    pub fn placeholder(self, placeholder: &str) -> (p: Self)
        ensures
            p == (CommandPalette { placeholder: p.placeholder, ..self }),
            p.placeholder@ == placeholder@,
    {
        CommandPalette { placeholder: placeholder.to_string(), ..self }
    }

    /// Whether the palette is open; `false` plays the exit.
    pub fn present(self, present: bool) -> (p: Self)
        ensures
            p == (CommandPalette { present, ..self }),
    {
        CommandPalette { present, ..self }
    }

    /// What the query row shows and in which ink: the query in ink, or the
    /// placeholder in ink-4 while the query is empty.
    pub fn query_text(&self) -> (r: (String, InkRole))
        ensures
            self.query@.len() == 0 ==> r.0@ == self.placeholder@ && r.1 == InkRole::Ink4,
            self.query@.len() > 0 ==> r.0@ == self.query@ && r.1 == InkRole::Ink,
    {
        if self.query.as_str().is_empty() {
            (self.placeholder.clone(), InkRole::Ink4)
        } else {
            (self.query.clone(), InkRole::Ink)
        }
    }

    /// The section and the row inside it that the palette-wide row index
    /// `index` names, or `None` past the last row.
    pub fn row_at(&self, index: usize) -> (r: Option<(usize, usize)>)
        ensures
            match r {
                Some((s, i)) => s < self.sections@.len() && i < self.sections@[s as int].items@.len()
                    && index == rows_before(self.sections@, s as int) + i,
                None => index >= rows_before(self.sections@, self.sections@.len() as int),
            },
    {
        let mut s: usize = 0;
        let mut before: usize = 0;
        let n = self.sections.len();
        while s < n
            invariant
                s <= n,
                n == self.sections@.len(),
                before == rows_before(self.sections@, s as int),
                before <= index,
            decreases n - s,
        {
            let count = self.sections[s].items.len();
            if index - before < count {
                return Some((s, index - before));
            }
            before = before + count;
            s = s + 1;
        }
        None
    }
}

} // verus!
