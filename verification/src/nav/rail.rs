//! The collapsed sidebar (the rail) and the sidebar data it is derived
//! from: nav glyphs, one cell per active session, the separator between.
use vstd::prelude::*;

use crate::ink::PaletteRole;
use crate::nav::sidebar::{mark_initial, workspace_initial};
use crate::nav::types::{AgentState, SessionSummary};
use crate::text::same_text;

verus! {

broadcast use vstd::string::group_string_axioms;

/// One cell of the rail.
#[derive(Debug, PartialEq)]
pub enum RailItem {
    /// A primary nav glyph, optionally carrying the warning badge.
    Nav {
        /// Names the nav action the cell stands for; also keys its hover state.
        name: String,
        /// The glyph's name.
        glyph: String,
        /// The warning badge in the top-right corner.
        badge: bool,
        /// The cell the screen is showing.
        current: bool,
    },
    /// The hairline between the nav glyphs and the sessions.
    Separator,
    /// An active session: a dot in its state colour.
    Session {
        /// Names the session the cell selects.
        id: String,
        /// Colours the dot.
        state: AgentState,
        /// The dot pulses (running / waiting).
        pulse: bool,
        /// The current session.
        selected: bool,
        /// The session's title: the cell is a tile bearing its initial, and
        /// the title is the cell's tooltip.
        label: Option<String>,
    },
}

impl RailItem {
    /// A nav glyph named `name`, which names the action the cell stands for.
    pub fn nav(name: &str, glyph: &str) -> (r: Self)
        ensures
            r matches RailItem::Nav { name: n, glyph: g, badge, current } && n@ == name@ && g@
                == glyph@ && !badge && !current,
    {
        RailItem::Nav { name: name.to_string(), glyph: glyph.to_string(), badge: false, current: false }
    }

    /// The hairline separator.
    pub fn separator() -> (r: Self)
        ensures
            r is Separator,
    {
        RailItem::Separator
    }

    /// A session cell.
    pub fn session(id: &str, state: AgentState) -> (r: Self)
        ensures
            r matches RailItem::Session { id: i, state: s, pulse, selected, label } && i@ == id@ && s
                == state && !pulse && !selected && label is None,
    {
        RailItem::Session { id: id.to_string(), state, pulse: false, selected: false, label: None }
    }

    /// Titles a session cell; ignored by other kinds.
    pub fn label(self, title: &str) -> (r: Self)
        ensures
            match self {
                RailItem::Session { id, state, pulse, selected, .. } => r matches RailItem::Session {
                    id: i,
                    state: s,
                    pulse: p,
                    selected: sel,
                    label: Some(l),
                } && i == id && s == state && p == pulse && sel == selected && l@ == title@,
                _ => r == self,
            },
    {
        match self {
            RailItem::Session { id, state, pulse, selected, .. } => RailItem::Session {
                id,
                state,
                pulse,
                selected,
                label: Some(title.to_string()),
            },
            other => other,
        }
    }

    /// Adds the warning badge to a nav cell; ignored by other kinds.
    pub fn badge(self) -> (r: Self)
        ensures
            match self {
                RailItem::Nav { name, glyph, current, .. } => r == (RailItem::Nav {
                    name,
                    glyph,
                    badge: true,
                    current,
                }),
                _ => r == self,
            },
    {
        match self {
            RailItem::Nav { name, glyph, current, .. } => RailItem::Nav { name, glyph, badge: true, current },
            other => other,
        }
    }

    /// Marks a nav cell as the cell the screen is showing; ignored by other
    /// kinds.
    pub fn current(self, is_current: bool) -> (r: Self)
        ensures
            match self {
                RailItem::Nav { name, glyph, badge, .. } => r == (RailItem::Nav {
                    name,
                    glyph,
                    badge,
                    current: is_current,
                }),
                _ => r == self,
            },
    {
        match self {
            RailItem::Nav { name, glyph, badge, .. } => RailItem::Nav { name, glyph, badge, current: is_current },
            other => other,
        }
    }

    /// Pulses a session dot; ignored by other kinds.
    pub fn pulse(self) -> (r: Self)
        ensures
            match self {
                RailItem::Session { id, state, selected, label, .. } => r == (RailItem::Session {
                    id,
                    state,
                    pulse: true,
                    selected,
                    label,
                }),
                _ => r == self,
            },
    {
        match self {
            RailItem::Session { id, state, selected, label, .. } => RailItem::Session {
                id,
                state,
                pulse: true,
                selected,
                label,
            },
            other => other,
        }
    }

    /// Marks a session cell as the current one; ignored by other kinds.
    pub fn selected(self, is_selected: bool) -> (r: Self)
        ensures
            match self {
                RailItem::Session { id, state, pulse, label, .. } => r == (RailItem::Session {
                    id,
                    state,
                    pulse,
                    selected: is_selected,
                    label,
                }),
                _ => r == self,
            },
    {
        match self {
            RailItem::Session { id, state, pulse, label, .. } => RailItem::Session {
                id,
                state,
                pulse,
                selected: is_selected,
                label,
            },
            other => other,
        }
    }
}

/// One primary nav row (`Tasks`, `Automations`, `Inbox`).
#[derive(Debug, PartialEq)]
pub struct SidebarNavItem {
    /// Stable name of the action the item stands for.
    pub name: String,
    /// Visible label.
    pub label: String,
    /// The glyph's name.
    pub icon: String,
    /// The mono count at the right.
    pub count: Option<String>,
    /// Colours the count in warning (the inbox needing the person).
    pub warning: bool,
}

impl SidebarNavItem {
    /// A nav row with no count.
    pub fn new(name: &str, label: &str, glyph: &str) -> (i: Self)
        ensures
            i.name@ == name@,
            i.label@ == label@,
            i.icon@ == glyph@,
            i.count is None,
            !i.warning,
    {
        SidebarNavItem {
            name: name.to_string(),
            label: label.to_string(),
            icon: glyph.to_string(),
            count: None,
            warning: false,
        }
    }

    /// Sets the mono count.
    pub fn count(self, count: &str) -> (i: Self)
        ensures
            i == (SidebarNavItem { count: i.count, ..self }),
            i.count matches Some(c) && c@ == count@,
    {
        SidebarNavItem { count: Some(count.to_string()), ..self }
    }

    /// Colours the count in warning.
    pub fn warning(self) -> (i: Self)
        ensures
            i == (SidebarNavItem { warning: true, ..self }),
    {
        SidebarNavItem { warning: true, ..self }
    }
}

/// A collapsible group of sessions.
#[derive(Debug, PartialEq)]
pub struct SidebarGroup {
    /// Stable id of the group, naming it when it is opened or closed.
    pub id: String,
    /// Header label (`Pinned`, `acme-web`).
    pub label: String,
    /// The mono count after the label.
    pub count: Option<String>,
    /// Open groups show their sessions; closed ones show only the header.
    pub open: bool,
    /// Muted mono text at the far right of the header (the `main` branch).
    pub trailing: Option<String>,
    /// The sessions inside.
    pub sessions: Vec<SessionSummary>,
}

impl SidebarGroup {
    /// An open group with no sessions.
    pub fn new(id: &str, label: &str) -> (g: Self)
        ensures
            g.id@ == id@,
            g.label@ == label@,
            g.count is None,
            g.open,
            g.trailing is None,
            g.sessions@.len() == 0,
    {
        SidebarGroup {
            id: id.to_string(),
            label: label.to_string(),
            count: None,
            open: true,
            trailing: None,
            sessions: Vec::new(),
        }
    }

    /// Sets the count.
    pub fn count(self, count: &str) -> (g: Self)
        ensures
            g == (SidebarGroup { count: g.count, ..self }),
            g.count matches Some(c) && c@ == count@,
    {
        SidebarGroup { count: Some(count.to_string()), ..self }
    }

    /// Closes the group.
    pub fn closed(self) -> (g: Self)
        ensures
            g == (SidebarGroup { open: false, ..self }),
    {
        SidebarGroup { open: false, ..self }
    }

    /// Sets the trailing mono text.
    pub fn trailing(self, text: &str) -> (g: Self)
        ensures
            g == (SidebarGroup { trailing: g.trailing, ..self }),
            g.trailing matches Some(t) && t@ == text@,
    {
        SidebarGroup { trailing: Some(text.to_string()), ..self }
    }

    /// Adds a session.
    pub fn session(self, session: SessionSummary) -> (g: Self)
        ensures
            g == (SidebarGroup { sessions: g.sessions, ..self }),
            g.sessions@ == self.sessions@.push(session),
    {
        let mut sessions = self.sessions;
        sessions.push(session);
        SidebarGroup { sessions, ..self }
    }
}

/// Everything the sidebar renders apart from the account footer. An app
/// derives this from its own state; the sidebar reads nothing else.
#[derive(Debug, PartialEq)]
pub struct SidebarNav {
    /// The workspace shown in the switcher.
    pub workspace: String,
    /// The primary nav rows.
    pub items: Vec<SidebarNavItem>,
    /// The caps label of the group row (`Workspaces`).
    pub groups_label: String,
    /// The collapsible groups, in order.
    pub groups: Vec<SidebarGroup>,
    /// The selected session.
    pub selected: Option<String>,
}

/// The rail cell of a nav row: its glyph, badged when the row carries a
/// warning count.
pub open spec fn nav_cell(i: SidebarNavItem) -> RailItem {
    RailItem::Nav { name: i.name, glyph: i.icon, badge: i.warning && i.count is Some, current: false }
}

/// Whether `selected` names the session `id`.
pub open spec fn is_selected(selected: Option<String>, id: String) -> bool {
    selected matches Some(s) && s@ == id@
}

/// The cells of the first `m` sessions of `ss`: one per session that is not
/// idle.
pub open spec fn session_cells(ss: Seq<SessionSummary>, selected: Option<String>, m: int) -> Seq<RailItem>
    decreases m,
{
    if m <= 0 {
        seq![]
    } else {
        let s = ss[m - 1];
        session_cells(ss, selected, m - 1) + if s.state == AgentState::Idle {
            seq![]
        } else {
            seq![
                RailItem::Session {
                    id: s.id,
                    state: s.state,
                    pulse: s.pulse,
                    selected: is_selected(selected, s.id),
                    label: None,
                },
            ]
        }
    }
}

/// The session cells of the first `k` groups, in group order.
pub open spec fn group_cells(gs: Seq<SidebarGroup>, selected: Option<String>, k: int) -> Seq<RailItem>
    decreases k,
{
    if k <= 0 {
        seq![]
    } else {
        group_cells(gs, selected, k - 1) + session_cells(
            gs[k - 1].sessions@,
            selected,
            gs[k - 1].sessions@.len() as int,
        )
    }
}

impl SidebarNav {
    /// A sidebar for `workspace`; add items and groups with the builder
    /// methods.
    pub fn new(workspace: &str) -> (n: Self)
        ensures
            n.workspace@ == workspace@,
            n.items@.len() == 0,
            n.groups_label@ == "Workspaces"@,
            n.groups@.len() == 0,
            n.selected is None,
    {
        SidebarNav {
            workspace: workspace.to_string(),
            items: Vec::new(),
            groups_label: "Workspaces".to_string(),
            groups: Vec::new(),
            selected: None,
        }
    }

    /// Adds a primary nav row.
    pub fn item(self, item: SidebarNavItem) -> (n: Self)
        ensures
            n == (SidebarNav { items: n.items, ..self }),
            n.items@ == self.items@.push(item),
    {
        let mut items = self.items;
        items.push(item);
        SidebarNav { items, ..self }
    }

    /// Overrides the caps label of the group row.
    pub fn groups_label(self, label: &str) -> (n: Self)
        ensures
            n == (SidebarNav { groups_label: n.groups_label, ..self }),
            n.groups_label@ == label@,
    {
        SidebarNav { groups_label: label.to_string(), ..self }
    }

    /// Adds a group.
    pub fn group(self, group: SidebarGroup) -> (n: Self)
        ensures
            n == (SidebarNav { groups: n.groups, ..self }),
            n.groups@ == self.groups@.push(group),
    {
        let mut groups = self.groups;
        groups.push(group);
        SidebarNav { groups, ..self }
    }

    /// Selects a session.
    pub fn selected(self, id: &str) -> (n: Self)
        ensures
            n == (SidebarNav { selected: n.selected, ..self }),
            n.selected matches Some(s) && s@ == id@,
    {
        SidebarNav { selected: Some(id.to_string()), ..self }
    }

    /// The collapsed form of this data: the nav glyphs (the warning count
    /// becomes the badge), the separator, then one cell per active session —
    /// every session that is not idle, in group order.
    pub fn rail_items(&self) -> (items: Vec<RailItem>)
        ensures
            items@ == self.items@.map_values(|i: SidebarNavItem| nav_cell(i)) + seq![RailItem::Separator]
                + group_cells(self.groups@, self.selected, self.groups@.len() as int),
    {
        let mut items: Vec<RailItem> = Vec::new();
        for k in 0..self.items.len()
            invariant
                items@ == self.items@.take(k as int).map_values(|i: SidebarNavItem| nav_cell(i)),
        {
            let i = &self.items[k];
            let cell = RailItem::Nav {
                name: i.name.clone(),
                glyph: i.icon.clone(),
                badge: i.warning && i.count.is_some(),
                current: false,
            };
            items.push(cell);
            assert(self.items@.take(k + 1).map_values(|i: SidebarNavItem| nav_cell(i)) == self.items@.take(
                k as int,
            ).map_values(|i: SidebarNavItem| nav_cell(i)).push(nav_cell(self.items@[k as int])));
        }
        assert(self.items@.take(self.items@.len() as int) == self.items@);
        items.push(RailItem::Separator);
        let ghost head = items@;
        for g in 0..self.groups.len()
            invariant
                items@ == head + group_cells(self.groups@, self.selected, g as int),
        {
            let ss = &self.groups[g].sessions;
            let ghost before = items@;
            for m in 0..ss.len()
                invariant
                    ss == self.groups@[g as int].sessions,
                    items@ == before + session_cells(ss@, self.selected, m as int),
            {
                let s = &ss[m];
                if s.state != AgentState::Idle {
                    let selected = match &self.selected {
                        Some(id) => same_text(id.as_str(), s.id.as_str()),
                        None => false,
                    };
                    let mut cell = RailItem::Session {
                        id: s.id.clone(),
                        state: s.state,
                        pulse: false,
                        selected,
                        label: None,
                    };
                    if s.pulse {
                        cell = cell.pulse();
                    }
                    items.push(cell);
                }
            }
        }
        items
    }
}

proof fn lemma_session_cells_active(ss: Seq<SessionSummary>, selected: Option<String>, m: int)
    ensures
        forall|i: int|
            0 <= i < session_cells(ss, selected, m).len() ==> (#[trigger] session_cells(ss, selected, m)[i] matches RailItem::Session {
                state,
                ..
            } && state != AgentState::Idle),
    decreases m,
{
    if m > 0 {
        lemma_session_cells_active(ss, selected, m - 1);
        let before = session_cells(ss, selected, m - 1);
        let all = session_cells(ss, selected, m);
        assert forall|i: int| 0 <= i < all.len() implies (#[trigger] all[i] matches RailItem::Session {
            state,
            ..
        } && state != AgentState::Idle) by {
            if i < before.len() {
                assert(all[i] == before[i]);
            }
        }
    }
}

proof fn lemma_group_cells_active(gs: Seq<SidebarGroup>, selected: Option<String>, k: int)
    ensures
        forall|i: int|
            0 <= i < group_cells(gs, selected, k).len() ==> (#[trigger] group_cells(gs, selected, k)[i] matches RailItem::Session {
                state,
                ..
            } && state != AgentState::Idle),
    decreases k,
{
    if k > 0 {
        lemma_group_cells_active(gs, selected, k - 1);
        let ss = gs[k - 1].sessions@;
        lemma_session_cells_active(ss, selected, ss.len() as int);
        let before = group_cells(gs, selected, k - 1);
        let more = session_cells(ss, selected, ss.len() as int);
        let all = group_cells(gs, selected, k);
        assert forall|i: int| 0 <= i < all.len() implies (#[trigger] all[i] matches RailItem::Session {
            state,
            ..
        } && state != AgentState::Idle) by {
            if i < before.len() {
                assert(all[i] == before[i]);
            } else {
                assert(all[i] == more[i - before.len()]);
            }
        }
    }
}

/// The rail shows only active sessions: every cell after the separator is a
/// session that is not idle, and the nav glyphs come first.
pub proof fn lemma_rail_shows_only_active_sessions(nav: SidebarNav)
    ensures
        ({
            let cells = nav.items@.map_values(|i: SidebarNavItem| nav_cell(i)) + seq![RailItem::Separator]
                + group_cells(nav.groups@, nav.selected, nav.groups@.len() as int);
            let n = nav.items@.len() as int;
            &&& forall|i: int| 0 <= i < n ==> (#[trigger] cells[i]) is Nav
            &&& cells[n] is Separator
            &&& forall|i: int|
                n < i < cells.len() ==> (#[trigger] cells[i] matches RailItem::Session { state, .. } && state
                    != AgentState::Idle)
        }),
{
    let head = nav.items@.map_values(|i: SidebarNavItem| nav_cell(i)) + seq![RailItem::Separator];
    let rest = group_cells(nav.groups@, nav.selected, nav.groups@.len() as int);
    lemma_group_cells_active(nav.groups@, nav.selected, nav.groups@.len() as int);
    let cells = head + rest;
    let n = nav.items@.len() as int;
    assert forall|i: int| n < i < cells.len() implies (#[trigger] cells[i] matches RailItem::Session {
        state,
        ..
    } && state != AgentState::Idle) by {
        assert(cells[i] == rest[i - head.len()]);
    }
    assert forall|i: int| 0 <= i < n implies (#[trigger] cells[i]) is Nav by {
        assert(cells[i] == head[i]);
    }
    assert(cells[n] == head[n]);
}

/// The cell an active session gets: its dot in its state, pulsing as it
/// pulses, selected exactly when it is the selected session, without a
/// title.
pub open spec fn cell_for(s: SessionSummary, selected: Option<String>) -> RailItem {
    RailItem::Session {
        id: s.id,
        state: s.state,
        pulse: s.pulse,
        selected: selected matches Some(x) && x@ == s.id@,
        label: None,
    }
}

proof fn lemma_contains_concat(x: Seq<RailItem>, y: Seq<RailItem>, r: RailItem)
    ensures
        x.contains(r) ==> (x + y).contains(r),
        y.contains(r) ==> (x + y).contains(r),
{
    if x.contains(r) {
        let i = choose|i: int| 0 <= i < x.len() && x[i] == r;
        assert((x + y)[i] == r);
    }
    if y.contains(r) {
        let i = choose|i: int| 0 <= i < y.len() && y[i] == r;
        assert((x + y)[x.len() + i] == r);
    }
}

proof fn lemma_session_cells_exact(ss: Seq<SessionSummary>, selected: Option<String>, m: int)
    requires
        0 <= m <= ss.len(),
    ensures
        forall|i: int|
            0 <= i < session_cells(ss, selected, m).len() ==> exists|j: int|
                0 <= j < m && ss[j].state != AgentState::Idle && #[trigger] session_cells(ss, selected, m)[i]
                    == cell_for(#[trigger] ss[j], selected),
        forall|j: int|
            0 <= j < m && (#[trigger] ss[j]).state != AgentState::Idle ==> session_cells(ss, selected, m).contains(
                cell_for(ss[j], selected),
            ),
    decreases m,
{
    if m > 0 {
        lemma_session_cells_exact(ss, selected, m - 1);
        let before = session_cells(ss, selected, m - 1);
        let t: Seq<RailItem> = if ss[m - 1].state == AgentState::Idle {
            seq![]
        } else {
            seq![cell_for(ss[m - 1], selected)]
        };
        let all = session_cells(ss, selected, m);
        assert(all == before + t);
        assert forall|i: int| 0 <= i < all.len() implies exists|j: int|
            0 <= j < m && ss[j].state != AgentState::Idle && #[trigger] all[i] == cell_for(#[trigger] ss[j], selected) by {
            if i < before.len() {
                assert(all[i] == before[i]);
                let j = choose|j: int|
                    0 <= j < m - 1 && ss[j].state != AgentState::Idle && #[trigger] before[i] == cell_for(
                        #[trigger] ss[j],
                        selected,
                    );
            } else {
                assert(all[i] == cell_for(ss[m - 1], selected));
            }
        }
        assert forall|j: int| 0 <= j < m && (#[trigger] ss[j]).state != AgentState::Idle implies all.contains(
            cell_for(ss[j], selected),
        ) by {
            lemma_contains_concat(before, t, cell_for(ss[j], selected));
            if j == m - 1 {
                assert(t[0] == cell_for(ss[j], selected));
            }
        }
    }
}

proof fn lemma_group_cells_exact(gs: Seq<SidebarGroup>, selected: Option<String>, k: int)
    requires
        0 <= k <= gs.len(),
    ensures
        forall|i: int|
            0 <= i < group_cells(gs, selected, k).len() ==> exists|g: int, j: int|
                0 <= g < k && 0 <= j < gs[g].sessions@.len() && gs[g].sessions@[j].state != AgentState::Idle
                    && #[trigger] group_cells(gs, selected, k)[i] == cell_for(#[trigger] gs[g].sessions@[j], selected),
        forall|g: int, j: int|
            0 <= g < k && 0 <= j < gs[g].sessions@.len() && (#[trigger] gs[g].sessions@[j]).state != AgentState::Idle
                ==> group_cells(gs, selected, k).contains(cell_for(gs[g].sessions@[j], selected)),
    decreases k,
{
    if k > 0 {
        lemma_group_cells_exact(gs, selected, k - 1);
        let ss = gs[k - 1].sessions@;
        lemma_session_cells_exact(ss, selected, ss.len() as int);
        let before = group_cells(gs, selected, k - 1);
        let more = session_cells(ss, selected, ss.len() as int);
        let all = group_cells(gs, selected, k);
        assert(all == before + more);
        assert forall|i: int| 0 <= i < all.len() implies exists|g: int, j: int|
            0 <= g < k && 0 <= j < gs[g].sessions@.len() && gs[g].sessions@[j].state != AgentState::Idle
                && #[trigger] all[i] == cell_for(#[trigger] gs[g].sessions@[j], selected) by {
            if i < before.len() {
                assert(all[i] == before[i]);
                let (g, j) = choose|g: int, j: int|
                    0 <= g < k - 1 && 0 <= j < gs[g].sessions@.len() && gs[g].sessions@[j].state != AgentState::Idle
                        && #[trigger] before[i] == cell_for(#[trigger] gs[g].sessions@[j], selected);
            } else {
                assert(all[i] == more[i - before.len()]);
                let j = choose|j: int|
                    0 <= j < ss.len() && ss[j].state != AgentState::Idle && #[trigger] more[i - before.len()]
                        == cell_for(#[trigger] ss[j], selected);
                assert(gs[k - 1].sessions@[j] == ss[j]);
            }
        }
        assert forall|g: int, j: int|
            0 <= g < k && 0 <= j < gs[g].sessions@.len() && (#[trigger] gs[g].sessions@[j]).state != AgentState::Idle
                implies all.contains(cell_for(gs[g].sessions@[j], selected)) by {
            let c = cell_for(gs[g].sessions@[j], selected);
            lemma_contains_concat(before, more, c);
            if g == k - 1 {
                assert(ss[j] == gs[g].sessions@[j]);
            }
        }
    }
}

/// The collapsed rail mirrors the sidebar: the nav glyphs come first, one
/// per nav row in order, each named and drawn as its row and badged
/// exactly when the row carries a warning count, then the separator; after
/// it every active session of every group, each exactly as [`cell_for`]
/// draws it (selected exactly when it is the selected session), and only
/// those.
pub proof fn lemma_the_rail_mirrors_the_sidebar(nav: SidebarNav)
    ensures
        ({
            let cells = nav.items@.map_values(|i: SidebarNavItem| nav_cell(i)) + seq![RailItem::Separator]
                + group_cells(nav.groups@, nav.selected, nav.groups@.len() as int);
            let n = nav.items@.len() as int;
            &&& forall|i: int|
                0 <= i < n ==> {
                    let c = #[trigger] cells[i];
                    &&& c is Nav
                    &&& c->Nav_name == nav.items@[i].name
                    &&& c->Nav_glyph == nav.items@[i].icon
                    &&& c->Nav_badge == (nav.items@[i].warning && nav.items@[i].count is Some)
                    &&& !c->Nav_current
                }
            &&& cells[n] is Separator
            &&& forall|i: int|
                n < i < cells.len() ==> exists|g: int, j: int|
                    0 <= g < nav.groups@.len() && 0 <= j < nav.groups@[g].sessions@.len()
                        && nav.groups@[g].sessions@[j].state != AgentState::Idle && #[trigger] cells[i] == cell_for(
                        #[trigger] nav.groups@[g].sessions@[j],
                        nav.selected,
                    )
            &&& forall|g: int, j: int|
                0 <= g < nav.groups@.len() && 0 <= j < nav.groups@[g].sessions@.len() && (
                #[trigger] nav.groups@[g].sessions@[j]).state != AgentState::Idle ==> cells.contains(
                    cell_for(nav.groups@[g].sessions@[j], nav.selected),
                )
        }),
{
    let head = nav.items@.map_values(|i: SidebarNavItem| nav_cell(i)) + seq![RailItem::Separator];
    let rest = group_cells(nav.groups@, nav.selected, nav.groups@.len() as int);
    lemma_group_cells_exact(nav.groups@, nav.selected, nav.groups@.len() as int);
    let cells = head + rest;
    let n = nav.items@.len() as int;
    assert forall|i: int| 0 <= i < n implies {
        let c = #[trigger] cells[i];
        &&& c is Nav
        &&& c->Nav_name == nav.items@[i].name
        &&& c->Nav_glyph == nav.items@[i].icon
        &&& c->Nav_badge == (nav.items@[i].warning && nav.items@[i].count is Some)
        &&& !c->Nav_current
    } by {
        assert(cells[i] == head[i]);
    }
    assert(cells[n] == head[n]);
    assert forall|i: int| n < i < cells.len() implies exists|g: int, j: int|
        0 <= g < nav.groups@.len() && 0 <= j < nav.groups@[g].sessions@.len()
            && nav.groups@[g].sessions@[j].state != AgentState::Idle && #[trigger] cells[i] == cell_for(
            #[trigger] nav.groups@[g].sessions@[j],
            nav.selected,
        ) by {
        assert(cells[i] == rest[i - head.len()]);
    }
    assert forall|g: int, j: int|
        0 <= g < nav.groups@.len() && 0 <= j < nav.groups@[g].sessions@.len() && (
        #[trigger] nav.groups@[g].sessions@[j]).state != AgentState::Idle implies cells.contains(
        cell_for(nav.groups@[g].sessions@[j], nav.selected),
    ) by {
        lemma_contains_concat(head, rest, cell_for(nav.groups@[g].sessions@[j], nav.selected));
    }
}

/// How a rail cell is painted this frame.
#[derive(Debug, Clone, Copy, PartialEq, Eq, Structural)]
pub struct CellLook {
    /// The ground the cell's tint fades toward.
    pub ground: PaletteRole,
    /// Whether the ground shows.
    pub lit: bool,
    /// The glyph's or the initial's ink.
    pub ink: PaletteRole,
}

/// A nav cell's look: the current cell sits on accent-soft in accent ink; a
/// hovered one lights surface-2 and the primary ink; at rest ink-3 and no
/// ground.
pub fn nav_cell_look(current: bool, hovered: bool) -> (l: CellLook)
    ensures
        l.ground == if current { PaletteRole::AccentSoft } else { PaletteRole::Surface2 },
        l.lit == (current || hovered),
        l.ink == if hovered && !current {
            PaletteRole::Ink
        } else if current {
            PaletteRole::AccentInk
        } else {
            PaletteRole::Ink3
        },
{
    let rest = if current { PaletteRole::AccentInk } else { PaletteRole::Ink3 };
    CellLook {
        ground: if current { PaletteRole::AccentSoft } else { PaletteRole::Surface2 },
        lit: current || hovered,
        ink: if hovered && !current { PaletteRole::Ink } else { rest },
    }
}

/// A session cell's look: the selected cell sits on accent-soft with an
/// accent-ink initial; a titled cell is a tile whose ground always shows.
pub fn session_cell_look(selected: bool, hovered: bool, titled: bool) -> (l: CellLook)
    ensures
        l.ground == if selected { PaletteRole::AccentSoft } else { PaletteRole::Surface2 },
        l.lit == (selected || hovered || titled),
        l.ink == if selected { PaletteRole::AccentInk } else { PaletteRole::Ink2 },
{
    CellLook {
        ground: if selected { PaletteRole::AccentSoft } else { PaletteRole::Surface2 },
        lit: selected || hovered || titled,
        ink: if selected { PaletteRole::AccentInk } else { PaletteRole::Ink2 },
    }
}

impl RailItem {
    /// The initial a titled session tile bears: its title's first letter or
    /// digit, uppercased, or a middle dot; `None` for any other cell.
    pub fn initial(&self) -> (r: Option<String>)
        ensures
            match *self {
                RailItem::Session { label: Some(t), .. } => r matches Some(i) && i@ == mark_initial(t@),
                _ => r is None,
            },
    {
        match self {
            RailItem::Session { label: Some(t), .. } => Some(workspace_initial(t.as_str())),
            _ => None,
        }
    }
}

} // verus!
