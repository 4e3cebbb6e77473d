//! The modal dialog: a card over a scrim with a title tile, an optional body
//! and detail, and one action row with the primary at the far right.
use vstd::prelude::*;

use crate::data::button::{button, Button, ButtonSize, ButtonVariant};
use crate::ink::PaletteRole;

verus! {

/// What a dialog reports; it picks the title tile.
#[derive(Debug, Clone, Copy, PartialEq, Eq, Structural)]
pub enum DialogKind {
    /// The info clock.
    Info,
    /// The warning shield.
    Warning,
    /// The danger `x`.
    Error,
}

impl Default for DialogKind {
    fn default() -> (k: Self)
        ensures
            k == DialogKind::Info,
    {
        DialogKind::Info
    }
}

impl DialogKind {
    /// The title tile's ground, its ink and the name of its glyph.
    pub fn tile(self) -> (r: (PaletteRole, PaletteRole, &'static str))
        ensures
            match self {
                DialogKind::Info => r.0 == PaletteRole::InfoSoft && r.1 == PaletteRole::Info && r.2@ == "clock"@,
                DialogKind::Warning => r.0 == PaletteRole::WarningSoft && r.1 == PaletteRole::Warning && r.2@
                    == "shield"@,
                DialogKind::Error => r.0 == PaletteRole::DangerSoft && r.1 == PaletteRole::Danger && r.2@ == "x"@,
            },
    {
        match self {
            DialogKind::Info => (PaletteRole::InfoSoft, PaletteRole::Info, "clock"),
            DialogKind::Warning => (PaletteRole::WarningSoft, PaletteRole::Warning, "shield"),
            DialogKind::Error => (PaletteRole::DangerSoft, PaletteRole::Danger, "x"),
        }
    }
}

/// A modal dialog.
#[derive(Debug)]
pub struct Dialog {
    /// Stable identity of the dialog.
    pub id: String,
    /// The title beside the tile.
    pub title: String,
    /// What it reports.
    pub kind: DialogKind,
    /// The body paragraph.
    pub body: Option<String>,
    /// A mono detail box under the body.
    pub detail: Option<String>,
    /// The primary button's label.
    pub primary: String,
    /// The secondary button's label, when there is one.
    pub secondary: Option<String>,
    /// The primary is a danger button instead of the accent one.
    pub danger: bool,
    /// Whether the dialog is open; `false` plays the exit.
    pub present: bool,
}

/// An info dialog titled `title` with an `OK` primary.
pub fn dialog(id: &str, title: &str) -> (d: Dialog)
    ensures
        d.id@ == id@,
        d.title@ == title@,
        d.kind == DialogKind::Info,
        d.body is None,
        d.detail is None,
        d.primary@ == "OK"@,
        d.secondary is None,
        !d.danger,
        d.present,
{
    Dialog {
        id: id.to_string(),
        title: title.to_string(),
        kind: DialogKind::Info,
        body: None,
        detail: None,
        primary: "OK".to_string(),
        secondary: None,
        danger: false,
        present: true,
    }
}

impl Dialog {
    /// Sets what the dialog reports.
    pub fn kind(self, kind: DialogKind) -> (d: Self)
        ensures
            d == (Dialog { kind, ..self }),
    {
        Dialog { kind, ..self }
    }

    /// The body paragraph.
    pub fn body(self, text: &str) -> (d: Self)
        ensures
            d == (Dialog { body: d.body, ..self }),
            d.body matches Some(b) && b@ == text@,
    {
        Dialog { body: Some(text.to_string()), ..self }
    }

    /// The mono detail box.
    pub fn detail(self, text: &str) -> (d: Self)
        ensures
            d == (Dialog { detail: d.detail, ..self }),
            d.detail matches Some(b) && b@ == text@,
    {
        Dialog { detail: Some(text.to_string()), ..self }
    }

    /// The primary button's label.
    pub fn primary(self, label: &str) -> (d: Self)
        ensures
            d == (Dialog { primary: d.primary, ..self }),
            d.primary@ == label@,
    {
        Dialog { primary: label.to_string(), ..self }
    }

    /// Adds the secondary button.
    pub fn secondary(self, label: &str) -> (d: Self)
        ensures
            d == (Dialog { secondary: d.secondary, ..self }),
            d.secondary matches Some(b) && b@ == label@,
    {
        Dialog { secondary: Some(label.to_string()), ..self }
    }

    /// Draws the primary as a danger button.
    pub fn danger(self, danger: bool) -> (d: Self)
        ensures
            d == (Dialog { danger, ..self }),
    {
        Dialog { danger, ..self }
    }

    /// Whether the dialog is open; `false` plays the exit.
    pub fn present(self, present: bool) -> (d: Self)
        ensures
            d == (Dialog { present, ..self }),
    {
        Dialog { present, ..self }
    }

    /// The action row, left to right: the secondary when there is one, then
    /// the primary at the far right — accent, or danger when asked.
    pub fn buttons(&self) -> (out: Vec<Button>)
        ensures
            out@.len() == if self.secondary is Some { 2int } else { 1 },
            out@.last().label matches Some(l) && l@ == self.primary@,
            out@.last().variant == if self.danger { ButtonVariant::Danger } else { ButtonVariant::Primary },
            self.secondary matches Some(s) ==> (out@[0].label matches Some(l) && l@ == s@)
                && out@[0].variant == ButtonVariant::Secondary,
            forall|i: int| 0 <= i < out@.len() ==> (#[trigger] out@[i]).size == ButtonSize::Md,
    {
        let mut out: Vec<Button> = Vec::new();
        if let Some(label) = &self.secondary {
            out.push(button("secondary", label.as_str()).size(ButtonSize::Md));
        }
        let b = button("primary", self.primary.as_str()).size(ButtonSize::Md);
        out.push(if self.danger { b.danger() } else { b.primary() });
        out
    }
}

} // verus!
