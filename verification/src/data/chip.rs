//! Chips: bordered, quiet controls (model and mode chips in the composer,
//! scope chips in panes, knowledge sources) and the look they take under
//! the pointer.
use vstd::prelude::*;

use crate::ink::PaletteRole;

verus! {

/// A chip.
#[derive(Debug)]
pub struct Chip {
    /// Stable identity of the chip.
    pub id: String,
    /// The label.
    pub label: String,
    /// A smaller ink-3 detail after the label.
    pub detail: Option<String>,
    /// The name of a leading glyph.
    pub icon: Option<String>,
    /// A trailing chevron: the chip opens a menu.
    pub chevron: bool,
    /// The composer's taller chip.
    pub composer: bool,
    /// Held in its lifted look (its menu is open).
    pub active: bool,
    /// Accent text (an add affordance).
    pub accent: bool,
}

/// A chip with a label.
pub fn chip(id: &str, label: &str) -> (c: Chip)
    ensures
        c.id@ == id@,
        c.label@ == label@,
        c.detail is None,
        c.icon is None,
        !c.chevron && !c.composer && !c.active && !c.accent,
{
    Chip {
        id: id.to_string(),
        label: label.to_string(),
        detail: None,
        icon: None,
        chevron: false,
        composer: false,
        active: false,
        accent: false,
    }
}

impl Chip {
    /// A leading glyph, by name.
    pub fn icon(self, glyph: &str) -> (c: Self)
        ensures
            c == (Chip { icon: c.icon, ..self }),
            c.icon matches Some(g) && g@ == glyph@,
    {
        Chip { icon: Some(glyph.to_string()), ..self }
    }

    /// A smaller ink-3 detail after the label.
    pub fn detail(self, detail: &str) -> (c: Self)
        ensures
            c == (Chip { detail: c.detail, ..self }),
            c.detail matches Some(d) && d@ == detail@,
    {
        Chip { detail: Some(detail.to_string()), ..self }
    }

    /// A trailing chevron.
    pub fn chevron(self) -> (c: Self)
        ensures
            c == (Chip { chevron: true, ..self }),
    {
        Chip { chevron: true, ..self }
    }

    /// The composer's taller chip.
    pub fn composer(self) -> (c: Self)
        ensures
            c == (Chip { composer: true, ..self }),
    {
        Chip { composer: true, ..self }
    }

    /// Holds the lifted look.
    pub fn active(self, active: bool) -> (c: Self)
        ensures
            c == (Chip { active, ..self }),
    {
        Chip { active, ..self }
    }

    /// Accent text.
    pub fn accent(self) -> (c: Self)
        ensures
            c == (Chip { accent: true, ..self }),
    {
        Chip { accent: true, ..self }
    }

    /// The border and the text the chip paints with: hovered or active it
    /// lifts to the strong hairline and, unless it is an accent chip, to the
    /// primary ink; at rest it keeps the hairline and ink-2 (accent ink for
    /// an accent chip).
    pub fn look(&self, hovered: bool) -> (r: (PaletteRole, PaletteRole))
        ensures
            r.0 == if hovered || self.active { PaletteRole::LineStrong } else { PaletteRole::Line },
            r.1 == if (hovered || self.active) && !self.accent {
                PaletteRole::Ink
            } else if self.accent {
                PaletteRole::AccentInk
            } else {
                PaletteRole::Ink2
            },
    {
        let lift = hovered || self.active;
        let border = if lift { PaletteRole::LineStrong } else { PaletteRole::Line };
        let text = if lift && !self.accent {
            PaletteRole::Ink
        } else if self.accent {
            PaletteRole::AccentInk
        } else {
            PaletteRole::Ink2
        };
        (border, text)
    }
}

} // verus!
