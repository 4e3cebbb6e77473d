//! Overlays: the command palette, the settings dialog, the modal dialog,
//! and where an anchored menu hangs off its trigger.
use vstd::prelude::*;

pub mod command_palette;
pub mod dialog;
pub mod settings;

verus! {

/// Which side of the trigger an anchored menu hangs off.
#[derive(Debug, Clone, Copy, PartialEq, Eq, Structural)]
pub enum MenuSide {
    /// Below the trigger: the menu's top edge sits one gap under the
    /// trigger's bottom edge.
    Below,
    /// Above the trigger: the menu's bottom edge sits one gap over the
    /// trigger's top edge.
    Above,
}

/// Which vertical edge of the trigger an anchored menu aligns to.
#[derive(Debug, Clone, Copy, PartialEq, Eq, Structural)]
pub enum MenuAlign {
    /// The menu's leading edge meets the trigger's leading edge.
    Start,
    /// The menu's trailing edge meets the trigger's trailing edge.
    End,
}

/// The corner of the menu that is put on the seat point.
#[derive(Debug, Clone, Copy, PartialEq, Eq, Structural)]
pub enum MenuCorner {
    /// The menu's top-left corner.
    TopLeft,
    /// The menu's top-right corner.
    TopRight,
    /// The menu's bottom-left corner.
    BottomLeft,
    /// The menu's bottom-right corner.
    BottomRight,
}

/// The corner a menu seated on `side` / `align` of its trigger puts on the
/// seat point: a menu below hangs from its top edge, one above from its
/// bottom edge; a start-aligned menu meets the trigger with its left edge,
/// an end-aligned one with its right edge.
pub fn menu_corner(side: MenuSide, align: MenuAlign) -> (corner: MenuCorner)
    ensures
        (corner == MenuCorner::TopLeft || corner == MenuCorner::TopRight) <==> side == MenuSide::Below,
        (corner == MenuCorner::TopLeft || corner == MenuCorner::BottomLeft) <==> align == MenuAlign::Start,
{
    match (side, align) {
        (MenuSide::Below, MenuAlign::Start) => MenuCorner::TopLeft,
        (MenuSide::Below, MenuAlign::End) => MenuCorner::TopRight,
        (MenuSide::Above, MenuAlign::Start) => MenuCorner::BottomLeft,
        (MenuSide::Above, MenuAlign::End) => MenuCorner::BottomRight,
    }
}

} // verus!
