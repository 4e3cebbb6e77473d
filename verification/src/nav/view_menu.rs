//! The view-options menu and its submenu: their rows, and the order in which
//! the submenu draws its items, its own rows and its hairlines, with the
//! index each clickable entry reports.
use vstd::prelude::*;

verus! {

/// One row of the view-options menu.
#[derive(Debug)]
pub enum MenuRow {
    /// A row that opens a submenu: label, current value, and whether the
    /// submenu is open (the row is then held on surface-2).
    Submenu {
        /// The left label.
        label: String,
        /// The current choice, ink-3 at the right.
        value: String,
        /// The submenu is open.
        highlighted: bool,
    },
    /// A row that toggles a preference, with an accent-ink check when on.
    Toggle {
        /// The left label.
        label: String,
        /// Draws the check.
        checked: bool,
    },
    /// A toggle row with a leading colour swatch (the project colour
    /// submenu); the renderer holds the swatch's colour.
    Swatch {
        /// The left label.
        label: String,
        /// Draws the check.
        checked: bool,
    },
    /// A hairline between two blocks of rows.
    Separator,
}

/// The view-options menu: its rows, each reporting its index when clicked.
#[derive(Debug)]
pub struct ViewMenu {
    /// Stable identity of the menu.
    pub id: String,
    /// The rows, in order.
    pub rows: Vec<MenuRow>,
    /// Whether the menu is open; `false` plays the exit.
    pub present: bool,
}

/// The menu reached from the sliders icon on a group row.
pub fn view_menu(id: &str, rows: Vec<MenuRow>) -> (m: ViewMenu)
    ensures
        m.id@ == id@,
        m.rows == rows,
        m.present,
{
    ViewMenu { id: id.to_string(), rows, present: true }
}

impl ViewMenu {
    /// Whether the menu is open; `false` plays the exit.
    pub fn present(self, present: bool) -> (m: Self)
        ensures
            m == (ViewMenu { present, ..self }),
    {
        ViewMenu { present, ..self }
    }
}

/// The submenu of the `Group by` row: plain items with one of them checked,
/// then rows that carry their own checks.
#[derive(Debug)]
pub struct ViewSubmenu {
    /// Stable identity of the submenu.
    pub id: String,
    /// The plain items, in order.
    pub items: Vec<String>,
    /// Rows after the plain items (the project colour swatches).
    pub rows: Vec<MenuRow>,
    /// The plain item marked with an accent-ink check.
    pub selected: Option<usize>,
    /// The plain item a hairline is drawn above.
    pub separator_before: Option<usize>,
    /// Whether the submenu is open; `false` plays the exit.
    pub present: bool,
}

/// A submenu listing `items`, with `selected` checked.
pub fn view_submenu(id: &str, items: Vec<String>, selected: Option<usize>) -> (m: ViewSubmenu)
    ensures
        m.id@ == id@,
        m.items == items,
        m.rows@.len() == 0,
        m.selected == selected,
        m.separator_before is None,
        m.present,
{
    ViewSubmenu { id: id.to_string(), items, rows: Vec::new(), selected, separator_before: None, present: true }
}

/// A submenu of menu rows, each carrying its own check.
pub fn view_submenu_rows(id: &str, rows: Vec<MenuRow>) -> (m: ViewSubmenu)
    ensures
        m.id@ == id@,
        m.items@.len() == 0,
        m.rows == rows,
        m.selected is None,
        m.separator_before is None,
        m.present,
{
    ViewSubmenu { id: id.to_string(), items: Vec::new(), rows, selected: None, separator_before: None, present: true }
}

/// One drawn entry of the submenu.
#[derive(Debug, Clone, Copy, PartialEq, Eq, Structural)]
pub enum SubmenuEntry {
    /// A hairline.
    Separator,
    /// A plain item: its index (which it reports when clicked) and whether
    /// it carries the check on the surface-3 ground.
    Item {
        /// The item's index, reported when clicked.
        index: usize,
        /// Whether it is the selected item.
        checked: bool,
    },
    /// One of the submenu's own rows.
    Row {
        /// The index it reports when clicked: it counts after the plain
        /// items.
        index: usize,
        /// The row's position in `rows`.
        row: usize,
    },
}

/// The entries of the first `k` plain items: a hairline above the item
/// `separator_before` names, and each item checked when it is `selected`.
pub open spec fn item_entries(selected: Option<usize>, separator_before: Option<usize>, k: int) -> Seq<SubmenuEntry>
    decreases k,
{
    if k <= 0 {
        Seq::empty()
    } else {
        let i = (k - 1) as usize;
        item_entries(selected, separator_before, k - 1) + (if separator_before == Some(i) {
            seq![SubmenuEntry::Separator]
        } else {
            Seq::empty()
        }) + seq![SubmenuEntry::Item { index: i, checked: selected == Some(i) }]
    }
}

/// The entries of the first `k` of the submenu's own rows, after `plain`
/// items: a separator row draws a hairline, any other row reports
/// `plain + j`.
pub open spec fn row_entries(rows: Seq<MenuRow>, plain: int, k: int) -> Seq<SubmenuEntry>
    decreases k,
{
    if k <= 0 {
        Seq::empty()
    } else {
        row_entries(rows, plain, k - 1).push(
            if rows[k - 1] is Separator {
                SubmenuEntry::Separator
            } else {
                SubmenuEntry::Row { index: (plain + k - 1) as usize, row: (k - 1) as usize }
            },
        )
    }
}

/// The index a clickable entry reports, or `None` for a hairline.
pub open spec fn entry_index(e: SubmenuEntry) -> Option<int> {
    match e {
        SubmenuEntry::Separator => None,
        SubmenuEntry::Item { index, .. } => Some(index as int),
        SubmenuEntry::Row { index, .. } => Some(index as int),
    }
}

/// Every clickable entry among `es` reports an index in `lo..hi`, and later
/// entries report larger indices.
pub open spec fn indices_rise(es: Seq<SubmenuEntry>, lo: int, hi: int) -> bool {
    &&& forall|a: int|
        0 <= a < es.len() && entry_index(es[a]) is Some ==> lo <= (#[trigger] entry_index(es[a]))->0 < hi
    &&& forall|a: int, b: int|
        0 <= a < b < es.len() && entry_index(es[a]) is Some && entry_index(es[b]) is Some ==> (
        #[trigger] entry_index(es[a]))->0 < (#[trigger] entry_index(es[b]))->0
}

proof fn lemma_item_indices_rise(selected: Option<usize>, separator_before: Option<usize>, k: int)
    requires
        0 <= k <= usize::MAX + 1,
    ensures
        indices_rise(item_entries(selected, separator_before, k), 0, k),
    decreases k,
{
    if k > 0 {
        lemma_item_indices_rise(selected, separator_before, k - 1);
        let before = item_entries(selected, separator_before, k - 1);
        let i = (k - 1) as usize;
        let mid = if separator_before == Some(i) {
            seq![SubmenuEntry::Separator]
        } else {
            Seq::<SubmenuEntry>::empty()
        };
        let es = item_entries(selected, separator_before, k);
        assert(es == before + mid + seq![SubmenuEntry::Item { index: i, checked: selected == Some(i) }]);
        assert forall|a: int| 0 <= a < es.len() && entry_index(es[a]) is Some implies 0 <= (
        #[trigger] entry_index(es[a]))->0 < k by {
            if a < before.len() {
                assert(es[a] == before[a]);
            }
        }
        assert forall|a: int, b: int|
            0 <= a < b < es.len() && entry_index(es[a]) is Some && entry_index(es[b]) is Some implies (
            #[trigger] entry_index(es[a]))->0 < (#[trigger] entry_index(es[b]))->0 by {
            if b < before.len() {
                assert(es[a] == before[a]);
                assert(es[b] == before[b]);
            } else {
                assert(es[a] == before[a]);
            }
        }
    }
}

proof fn lemma_row_indices_rise(rows: Seq<MenuRow>, plain: int, k: int)
    requires
        0 <= plain,
        0 <= k <= rows.len(),
        plain + k <= usize::MAX + 1,
    ensures
        indices_rise(row_entries(rows, plain, k), plain, plain + k),
    decreases k,
{
    if k > 0 {
        lemma_row_indices_rise(rows, plain, k - 1);
        let before = row_entries(rows, plain, k - 1);
        let es = row_entries(rows, plain, k);
        assert forall|a: int| 0 <= a < es.len() && entry_index(es[a]) is Some implies plain <= (
        #[trigger] entry_index(es[a]))->0 < plain + k by {
            if a < before.len() {
                assert(es[a] == before[a]);
            }
        }
        assert forall|a: int, b: int|
            0 <= a < b < es.len() && entry_index(es[a]) is Some && entry_index(es[b]) is Some implies (
            #[trigger] entry_index(es[a]))->0 < (#[trigger] entry_index(es[b]))->0 by {
            assert(es[a] == before[a]);
            if b < before.len() {
                assert(es[b] == before[b]);
            }
        }
    }
}

/// The submenu's entries in drawing order: the plain items, then its own
/// rows.
pub open spec fn submenu_entries(m: ViewSubmenu) -> Seq<SubmenuEntry> {
    item_entries(m.selected, m.separator_before, m.items@.len() as int) + row_entries(
        m.rows@,
        m.items@.len() as int,
        m.rows@.len() as int,
    )
}

impl ViewSubmenu {
    /// Draws a hairline above the plain item at `index`.
    pub fn separator_before(self, index: usize) -> (m: Self)
        ensures
            m == (ViewSubmenu { separator_before: Some(index), ..self }),
    {
        ViewSubmenu { separator_before: Some(index), ..self }
    }

    /// Whether the submenu is open; `false` plays the exit.
    pub fn present(self, present: bool) -> (m: Self)
        ensures
            m == (ViewSubmenu { present, ..self }),
    {
        ViewSubmenu { present, ..self }
    }

    /// The entries the submenu draws, in order.
    pub fn entries(&self) -> (out: Vec<SubmenuEntry>)
        requires
            self.items@.len() + self.rows@.len() <= usize::MAX,
        ensures
            out@ == submenu_entries(*self),
    {
        let mut out: Vec<SubmenuEntry> = Vec::new();
        let plain = self.items.len();
        for i in 0..plain
            invariant
                plain == self.items@.len(),
                out@ == item_entries(self.selected, self.separator_before, i as int),
        {
            let ghost before = out@;
            let sep = match self.separator_before {
                Some(s) => s == i,
                None => false,
            };
            if sep {
                out.push(SubmenuEntry::Separator);
            }
            let checked = match self.selected {
                Some(s) => s == i,
                None => false,
            };
            out.push(SubmenuEntry::Item { index: i, checked });
            assert(out@ == item_entries(self.selected, self.separator_before, i + 1));
        }
        let ghost items = out@;
        let n = self.rows.len();
        for j in 0..n
            invariant
                plain == self.items@.len(),
                n == self.rows@.len(),
                plain + n <= usize::MAX,
                items == item_entries(self.selected, self.separator_before, plain as int),
                out@ == items + row_entries(self.rows@, plain as int, j as int),
        {
            let e = match &self.rows[j] {
                MenuRow::Separator => SubmenuEntry::Separator,
                _ => SubmenuEntry::Row { index: plain + j, row: j },
            };
            out.push(e);
            assert(row_entries(self.rows@, plain as int, j + 1) == row_entries(
                self.rows@,
                plain as int,
                j as int,
            ).push(e));
        }
        out
    }
}

/// Indices count across the plain items first, then the submenu's own rows:
/// every clickable entry reports an index below `items + rows`, and a later
/// entry always reports a larger one, so no two entries report the same.
pub proof fn lemma_submenu_indices_rise(m: ViewSubmenu)
    requires
        m.items@.len() + m.rows@.len() <= usize::MAX,
    ensures
        indices_rise(submenu_entries(m), 0, (m.items@.len() + m.rows@.len()) as int),
{
    let p = m.items@.len() as int;
    let a_es = item_entries(m.selected, m.separator_before, p);
    let b_es = row_entries(m.rows@, p, m.rows@.len() as int);
    lemma_item_indices_rise(m.selected, m.separator_before, p);
    lemma_row_indices_rise(m.rows@, p, m.rows@.len() as int);
    let es = submenu_entries(m);
    assert(es == a_es + b_es);
    let hi = p + m.rows@.len();
    assert forall|a: int| 0 <= a < es.len() && entry_index(es[a]) is Some implies 0 <= (
    #[trigger] entry_index(es[a]))->0 < hi by {
        if a < a_es.len() {
            assert(es[a] == a_es[a]);
        } else {
            assert(es[a] == b_es[a - a_es.len()]);
        }
    }
    assert forall|a: int, b: int|
        0 <= a < b < es.len() && entry_index(es[a]) is Some && entry_index(es[b]) is Some implies (
        #[trigger] entry_index(es[a]))->0 < (#[trigger] entry_index(es[b]))->0 by {
        if b < a_es.len() {
            assert(es[a] == a_es[a]);
            assert(es[b] == a_es[b]);
        } else if a < a_es.len() {
            assert(es[a] == a_es[a]);
            assert(es[b] == b_es[b - a_es.len()]);
        } else {
            assert(es[a] == b_es[a - a_es.len()]);
            assert(es[b] == b_es[b - a_es.len()]);
        }
    }
}

} // verus!
