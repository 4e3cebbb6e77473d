//! The composer's chip pickers (model, effort, mode).
use vstd::prelude::*;

use crate::nav::sidebar::{to_uppercase, uppercase};
use crate::text::{extend_str, string_from};

verus! {

broadcast use vstd::string::group_string_axioms;

/// One row of a composer picker.
#[derive(Debug, PartialEq)]
pub struct PickerRow {
    /// Stable identity, handed back when picked.
    pub id: String,
    /// The row's name (`muse-spark-1.3`, `Extra high`, `Read-only`).
    pub label: String,
    /// The one-line description under it; empty draws no second line.
    pub detail: String,
    /// A trailing mono fact — a model's context limit, say.
    pub meta: Option<String>,
    /// Tags at the right edge (`default`, `active`).
    pub badges: Vec<String>,
}

impl PickerRow {
    /// A row with a label and a description.
    pub fn new(id: &str, label: &str, detail: &str) -> (r: Self)
        ensures
            r.id@ == id@,
            r.label@ == label@,
            r.detail@ == detail@,
            r.meta is None,
            r.badges@.len() == 0,
    {
        PickerRow {
            id: id.to_string(),
            label: label.to_string(),
            detail: detail.to_string(),
            meta: None,
            badges: Vec::new(),
        }
    }

    /// The trailing mono fact.
    pub fn meta(self, meta: &str) -> (r: Self)
        ensures
            r == (PickerRow { meta: r.meta, ..self }),
            r.meta matches Some(m) && m@ == meta@,
    {
        PickerRow { meta: Some(meta.to_string()), ..self }
    }

    /// Adds one badge at the right edge.
    pub fn badge(self, badge: &str) -> (r: Self)
        ensures
            r == (PickerRow { badges: r.badges, ..self }),
            r.badges@.len() == self.badges@.len() + 1,
            r.badges@.take(self.badges@.len() as int) == self.badges@,
            r.badges@.last()@ == badge@,
    {
        let mut badges = self.badges;
        badges.push(badge.to_string());
        PickerRow { badges, ..self }
    }
}

/// A chip menu: the model, reasoning-effort or approval-mode picker. The
/// keyboard's `selected` row is checked; the rows' own badges say which are
/// active or default, any number of them.
#[derive(Debug)]
pub struct PickerMenu {
    /// Stable identity of the menu.
    pub id: String,
    /// The caps title.
    pub title: String,
    /// The rows, in order.
    pub rows: Vec<PickerRow>,
    /// Where the keyboard is.
    pub selected: usize,
    /// Whether the menu is open.
    pub open: bool,
    /// Skips the enter.
    pub at_rest: bool,
}

fn menu(id: &str, title: &str, rows: Vec<PickerRow>, selected: usize, open: bool) -> (m: PickerMenu)
    ensures
        m.id@ == id@,
        m.title@ == title@,
        m.rows == rows,
        m.selected == selected,
        m.open == open,
        !m.at_rest,
{
    PickerMenu { id: id.to_string(), title: title.to_string(), rows, selected, open, at_rest: false }
}

/// The model picker.
pub fn model_menu(id: &str, rows: Vec<PickerRow>, selected: usize, open: bool) -> (m: PickerMenu)
    ensures
        m.id@ == id@,
        m.title@ == "Model"@,
        m.rows == rows,
        m.selected == selected,
        m.open == open,
        !m.at_rest,
{
    menu(id, "Model", rows, selected, open)
}

/// The reasoning-effort picker.
pub fn effort_menu(id: &str, rows: Vec<PickerRow>, selected: usize, open: bool) -> (m: PickerMenu)
    ensures
        m.id@ == id@,
        m.title@ == "Reasoning effort"@,
        m.rows == rows,
        m.selected == selected,
        m.open == open,
        !m.at_rest,
{
    menu(id, "Reasoning effort", rows, selected, open)
}

/// The approval-mode picker.
pub fn mode_menu(id: &str, rows: Vec<PickerRow>, selected: usize, open: bool) -> (m: PickerMenu)
    ensures
        m.id@ == id@,
        m.title@ == "Approval mode"@,
        m.rows == rows,
        m.selected == selected,
        m.open == open,
        !m.at_rest,
{
    menu(id, "Approval mode", rows, selected, open)
}

/// How one picker row is marked: whether it holds the highlight and whether
/// it carries the check.
#[derive(Debug, Clone, Copy, PartialEq, Eq, Structural)]
pub struct PickerMark {
    /// Holds the menu's single highlight.
    pub highlighted: bool,
    /// Carries the check: it is the keyboard's row.
    pub checked: bool,
}

/// `s` with every character in its uppercase form, in order.
pub open spec fn uppercased(s: Seq<char>) -> Seq<char>
    decreases s.len(),
{
    if s.len() == 0 {
        seq![]
    } else {
        uppercased(s.drop_last()) + uppercase(s.last())
    }
}

impl PickerMenu {
    /// The title as the menu draws it: in capitals.
    pub fn caps_title(&self) -> (t: String)
        ensures
            t@ == uppercased(self.title@),
    {
        let mut out: Vec<char> = Vec::new();
        for c in it: self.title.as_str().chars()
            invariant
                it.seq() == self.title@,
                out@ == uppercased(it.seq().take(it.index())),
        {
            let up = to_uppercase(c);
            let ghost before = out@;
            extend_str(&mut out, up.as_str());
            proof {
                let k = it.index();
                assert(it.seq().take(k + 1).drop_last() == it.seq().take(k));
                assert(it.seq().take(k + 1).last() == c);
            }
        }
        proof {
            assert(self.title@.take(self.title@.len() as int) == self.title@);
        }
        string_from(&out)
    }

    /// Overrides the caps title.
    pub fn title(self, title: &str) -> (m: Self)
        ensures
            m == (PickerMenu { title: m.title, ..self }),
            m.title@ == title@,
    {
        PickerMenu { title: title.to_string(), ..self }
    }

    /// Skips the enter.
    pub fn at_rest(self) -> (m: Self)
        ensures
            m == (PickerMenu { at_rest: true, ..self }),
    {
        PickerMenu { at_rest: true, ..self }
    }

    /// The marks of every row: the hovered row (`hovered`, the first row
    /// under the pointer) holds the highlight, else the keyboard's row; only
    /// the keyboard's row is checked. So at most one row is highlighted and
    /// at most one is checked, whatever badges the rows wear.
    pub fn marks(&self, hovered: Option<usize>) -> (out: Vec<PickerMark>)
        ensures
            out@.len() == self.rows@.len(),
            forall|i: int|
                0 <= i < out@.len() ==> (#[trigger] out@[i]) == (PickerMark {
                    highlighted: i == match hovered {
                        Some(h) => h as int,
                        None => self.selected as int,
                    },
                    checked: i == self.selected,
                }),
    {
        let active = match hovered {
            Some(h) => h,
            None => self.selected,
        };
        let mut out: Vec<PickerMark> = Vec::new();
        for i in 0..self.rows.len()
            invariant
                out@.len() == i,
                active == match hovered {
                    Some(h) => h,
                    None => self.selected,
                },
                forall|j: int|
                    0 <= j < i ==> (#[trigger] out@[j]) == (PickerMark {
                        highlighted: j == active,
                        checked: j == self.selected,
                    }),
        {
            out.push(PickerMark { highlighted: i == active, checked: i == self.selected });
        }
        out
    }
}

} // verus!
