//! The palette roles a component picks its inks and grounds from. The theme
//! maps each role to a colour; the library only decides which role a piece
//! of a component takes.
use vstd::prelude::*;

verus! {

/// A palette role for text or a glyph.
#[derive(Debug, Clone, Copy, PartialEq, Eq, Structural)]
pub enum InkRole {
    /// The primary ink.
    Ink,
    /// One step dimmer than [`InkRole::Ink`].
    Ink2,
    /// The muted ink of meta lines.
    Ink3,
    /// The dimmest ink: placeholders.
    Ink4,
    /// The accent as an ink.
    AccentInk,
    /// The success status colour.
    Success,
    /// The warning status colour.
    Warning,
    /// The danger status colour.
    Danger,
}

/// A palette role a component paints a ground, a border or a mark with.
#[derive(Debug, Clone, Copy, PartialEq, Eq, Structural)]
pub enum PaletteRole {
    /// Nothing painted.
    Transparent,
    /// The surface-1 step.
    Surface1,
    /// The surface-2 step.
    Surface2,
    /// The surface-3 step.
    Surface3,
    /// The hairline.
    Line,
    /// The strong hairline.
    LineStrong,
    /// The primary ink.
    Ink,
    /// One step dimmer ink.
    Ink2,
    /// The muted ink.
    Ink3,
    /// The dimmest ink.
    Ink4,
    /// The accent.
    Accent,
    /// The accent, one step stronger.
    AccentStrong,
    /// The soft accent tint.
    AccentSoft,
    /// The accent as an ink.
    AccentInk,
    /// White.
    White,
    /// The success colour.
    Success,
    /// The soft success tint.
    SuccessSoft,
    /// The warning colour.
    Warning,
    /// The soft warning tint.
    WarningSoft,
    /// The danger colour.
    Danger,
    /// The soft danger tint.
    DangerSoft,
    /// The info colour.
    Info,
    /// The soft info tint.
    InfoSoft,
}

} // verus!
