//! The `+` popover of the composer: its rows, each reporting its id when
//! activated.
use vstd::prelude::*;

verus! {

/// One row of the `+` menu.
#[derive(Debug)]
pub struct PlusMenuItem {
    /// Stable id, reported on activation.
    pub id: String,
    /// The glyph's name.
    pub icon: String,
    /// The label.
    pub label: String,
    /// An optional keycap at the right.
    pub key: Option<String>,
}

impl PlusMenuItem {
    /// An item.
    pub fn new(id: &str, icon: &str, label: &str) -> (it: Self)
        ensures
            it.id@ == id@,
            it.icon@ == icon@,
            it.label@ == label@,
            it.key is None,
    {
        PlusMenuItem { id: id.to_string(), icon: icon.to_string(), label: label.to_string(), key: None }
    }

    /// Adds the keycap.
    pub fn key(self, key: &str) -> (it: Self)
        ensures
            it == (PlusMenuItem { key: it.key, ..self }),
            it.key matches Some(k) && k@ == key@,
    {
        PlusMenuItem { key: Some(key.to_string()), ..self }
    }
}

/// The `+` menu over its items.
#[derive(Debug)]
pub struct PlusMenu {
    /// Stable identity of the menu.
    pub id: String,
    /// The rows, in order.
    pub items: Vec<PlusMenuItem>,
    /// Whether the menu is open.
    pub open: bool,
    /// Skips the enter morph.
    pub at_rest: bool,
}

/// A menu over `items`.
pub fn plus_menu(id: &str, items: Vec<PlusMenuItem>, open: bool) -> (m: PlusMenu)
    ensures
        m.id@ == id@,
        m.items == items,
        m.open == open,
        !m.at_rest,
{
    PlusMenu { id: id.to_string(), items, open, at_rest: false }
}

impl PlusMenu {
    /// Skips the enter morph.
    pub fn at_rest(self) -> (m: Self)
        ensures
            m == (PlusMenu { at_rest: true, ..self }),
    {
        PlusMenu { at_rest: true, ..self }
    }
}

} // verus!
