//! Status pills: quiet by default; the status variants tint the text and
//! barely the ground. Pills are for status only.
use vstd::prelude::*;

use crate::ink::PaletteRole;

verus! {

/// The colour a pill takes.
#[derive(Debug, Clone, Copy, PartialEq, Eq, Structural)]
pub enum PillVariant {
    /// Surface-3 ground, ink-2 text.
    Quiet,
    /// The accent.
    Accent,
    /// Success.
    Success,
    /// Warning.
    Warning,
    /// Danger.
    Danger,
    /// Info.
    Info,
    /// No ground, a hairline border.
    Line,
}

impl Default for PillVariant {
    fn default() -> (v: Self)
        ensures
            v == PillVariant::Quiet,
    {
        PillVariant::Quiet
    }
}

impl PillVariant {
    /// The pill's ground, its text, and its border when it has one.
    pub fn colors(self) -> (r: (PaletteRole, PaletteRole, Option<PaletteRole>))
        ensures
            r == match self {
                PillVariant::Quiet => (PaletteRole::Surface3, PaletteRole::Ink2, None),
                PillVariant::Accent => (PaletteRole::AccentSoft, PaletteRole::AccentInk, None),
                PillVariant::Success => (PaletteRole::SuccessSoft, PaletteRole::Success, None),
                PillVariant::Warning => (PaletteRole::WarningSoft, PaletteRole::Warning, None),
                PillVariant::Danger => (PaletteRole::DangerSoft, PaletteRole::Danger, None),
                PillVariant::Info => (PaletteRole::InfoSoft, PaletteRole::Info, None),
                PillVariant::Line => (PaletteRole::Transparent, PaletteRole::Ink2, Some(PaletteRole::Line)),
            },
    {
        match self {
            PillVariant::Quiet => (PaletteRole::Surface3, PaletteRole::Ink2, None),
            PillVariant::Accent => (PaletteRole::AccentSoft, PaletteRole::AccentInk, None),
            PillVariant::Success => (PaletteRole::SuccessSoft, PaletteRole::Success, None),
            PillVariant::Warning => (PaletteRole::WarningSoft, PaletteRole::Warning, None),
            PillVariant::Danger => (PaletteRole::DangerSoft, PaletteRole::Danger, None),
            PillVariant::Info => (PaletteRole::InfoSoft, PaletteRole::Info, None),
            PillVariant::Line => (PaletteRole::Transparent, PaletteRole::Ink2, Some(PaletteRole::Line)),
        }
    }
}

/// A pill: its label and its variant.
#[derive(Debug)]
pub struct Pill {
    /// The label.
    pub label: String,
    /// The colour it takes.
    pub variant: PillVariant,
}

/// A quiet pill.
pub fn pill(label: &str) -> (p: Pill)
    ensures
        p.label@ == label@,
        p.variant == PillVariant::Quiet,
{
    Pill { label: label.to_string(), variant: PillVariant::Quiet }
}

impl Pill {
    /// Sets the status variant.
    pub fn variant(self, variant: PillVariant) -> (p: Self)
        ensures
            p == (Pill { variant, ..self }),
    {
        Pill { variant, ..self }
    }
}

} // verus!
