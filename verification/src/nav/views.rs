//! The three groupings of the same sessions — status, project and date —
//! and their flattening into one row model, in render order, for a
//! virtualised list.
use vstd::prelude::*;

use crate::nav::types::{AgentState, SessionSummary};
use crate::text::{chars_of, decimal, decimal_chars, extend_chars, extend_str, string_from};

verus! {

broadcast use vstd::string::group_string_axioms;

/// A status group: `Needs you 1`, `Running 3`, `Done 2`.
#[derive(Debug, PartialEq)]
pub struct StatusGroup {
    /// Stable id of the group, naming it when it is opened or closed.
    pub id: String,
    /// The label.
    pub label: String,
    /// The mono count after the label.
    pub count: String,
    /// Open: the chevron points down and the rows are visible.
    pub open: bool,
    /// The rows under the header.
    pub sessions: Vec<SessionSummary>,
}

impl StatusGroup {
    /// An open group with `sessions` under it.
    pub fn new(id: &str, label: &str, count: &str, sessions: Vec<SessionSummary>) -> (g: Self)
        ensures
            g.id@ == id@,
            g.label@ == label@,
            g.count@ == count@,
            g.open,
            g.sessions == sessions,
    {
        StatusGroup {
            id: id.to_string(),
            label: label.to_string(),
            count: count.to_string(),
            open: true,
            sessions,
        }
    }

    /// Closes the group.
    pub fn closed(self) -> (g: Self)
        ensures
            g == (StatusGroup { open: false, ..self }),
    {
        StatusGroup { open: false, ..self }
    }
}

/// What a project group row's hover tray asks for.
#[derive(Debug, Clone, Copy, PartialEq, Eq, Structural)]
pub enum GroupAction {
    /// The `Plus` button: start a session in this project.
    New,
    /// The `Dots` button: open this project's menu.
    Menu,
    /// The "Show N more" / "Show less" row: show the rows the caller held
    /// back, or hide them again.
    ToggleMore,
}

/// A project group: the project row and the sessions below.
#[derive(Debug, PartialEq)]
pub struct ProjectGroup {
    /// Stable id of the group, naming it when it is opened or closed.
    pub id: String,
    /// The project name.
    pub name: String,
    /// The mono count at the right.
    pub count: String,
    /// Open: rows visible.
    pub open: bool,
    /// Muted (`Archived`, `Other workspaces`).
    pub muted: bool,
    /// The initial of the project's mark, drawn in the leading box when set.
    pub mark: Option<String>,
    /// The trailing mono text before the count (the branch).
    pub trailing: Option<String>,
    /// The rolled-up agent state: a bar at the row's left edge.
    pub state: Option<AgentState>,
    /// Draw the collapse chevron in the leading box.
    pub chevron: bool,
    /// Draw the 2 px current bar for [`Self::current`].
    pub current_bar: bool,
    /// The rows under the project row.
    pub sessions: Vec<SessionSummary>,
    /// A folded group: `(held_back, expanded)`. When `held_back > 0` a
    /// "Show N more" / "Show less" row follows the sessions.
    pub fold: Option<(usize, bool)>,
    /// The project the open session belongs to.
    pub current: bool,
}

impl ProjectGroup {
    /// A closed, unmuted, plain project with no sessions.
    pub fn new(id: &str, name: &str, count: &str) -> (g: Self)
        ensures
            g.id@ == id@,
            g.name@ == name@,
            g.count@ == count@,
            !g.open,
            !g.muted,
            g.mark is None,
            g.trailing is None,
            g.state is None,
            !g.chevron,
            !g.current_bar,
            g.sessions@.len() == 0,
            g.fold is None,
            !g.current,
    {
        ProjectGroup {
            id: id.to_string(),
            name: name.to_string(),
            count: count.to_string(),
            open: false,
            muted: false,
            mark: None,
            trailing: None,
            state: None,
            chevron: false,
            current_bar: false,
            sessions: Vec::new(),
            fold: None,
            current: false,
        }
    }

    /// Opens the project and gives it its sessions.
    pub fn open(self, sessions: Vec<SessionSummary>) -> (g: Self)
        ensures
            g == (ProjectGroup { open: true, sessions, ..self }),
    {
        ProjectGroup { open: true, sessions, ..self }
    }

    /// Mutes the row (`Archived`, `Other workspaces`).
    pub fn muted(self) -> (g: Self)
        ensures
            g == (ProjectGroup { muted: true, ..self }),
    {
        ProjectGroup { muted: true, ..self }
    }

    /// Draws the project's mark (its initial) in the leading box.
    pub fn mark(self, initial: &str) -> (g: Self)
        ensures
            g == (ProjectGroup { mark: g.mark, ..self }),
            g.mark matches Some(m) && m@ == initial@,
    {
        ProjectGroup { mark: Some(initial.to_string()), ..self }
    }

    /// Sets the trailing mono text before the count (the branch).
    pub fn trailing(self, text: &str) -> (g: Self)
        ensures
            g == (ProjectGroup { trailing: g.trailing, ..self }),
            g.trailing matches Some(t) && t@ == text@,
    {
        ProjectGroup { trailing: Some(text.to_string()), ..self }
    }

    /// Sets the rolled-up agent state.
    pub fn state(self, state: AgentState) -> (g: Self)
        ensures
            g == (ProjectGroup { state: Some(state), ..self }),
    {
        ProjectGroup { state: Some(state), ..self }
    }

    /// Folds a long group: `hidden` rows are held back and `expanded`
    /// picks the row's label ("Show {hidden} more" / "Show less").
    pub fn folded(self, hidden: usize, expanded: bool) -> (g: Self)
        ensures
            g == (ProjectGroup { fold: Some((hidden, expanded)), ..self }),
    {
        ProjectGroup { fold: Some((hidden, expanded)), ..self }
    }

    /// Marks (or unmarks) this as the project the open session belongs to.
    pub fn current(self, current: bool) -> (g: Self)
        ensures
            g == (ProjectGroup { current, ..self }),
    {
        ProjectGroup { current, ..self }
    }

    /// Draws the collapse chevron in the leading box.
    pub fn chevron(self, chevron: bool) -> (g: Self)
        ensures
            g == (ProjectGroup { chevron, ..self }),
    {
        ProjectGroup { chevron, ..self }
    }

    /// Draws the 2 px bar with [`Self::current`].
    pub fn current_bar(self, current_bar: bool) -> (g: Self)
        ensures
            g == (ProjectGroup { current_bar, ..self }),
    {
        ProjectGroup { current_bar, ..self }
    }
}

/// What fills a project row's leading box.
#[derive(Debug, Clone, Copy, PartialEq, Eq, Structural)]
pub enum LeadingSlot {
    /// The collapse chevron.
    Chevron,
    /// The project's mark.
    Mark,
    /// Nothing: the name starts at the leading centre.
    Plain,
}

/// The bar at a project row's left edge.
#[derive(Debug, Clone, Copy, PartialEq, Eq, Structural)]
pub enum EdgeBar {
    /// A bar in the rolled-up state's colour.
    State(AgentState),
    /// The accent bar of the current project.
    Current,
    /// No bar.
    Nothing,
}

/// A project group's head row.
#[derive(Debug)]
pub struct ProjectGroupRow {
    /// Stable identity of the row.
    pub id: String,
    /// The project name.
    pub name: String,
    /// The mono count at the right; empty draws none.
    pub count: String,
    /// Whether the group is open.
    pub open: bool,
    /// Muted (`Archived`, `Other workspaces`).
    pub muted: bool,
    /// The initial of the project's mark.
    pub mark: Option<String>,
    /// The trailing mono text (the branch).
    pub trailing: Option<String>,
    /// The rolled-up agent state.
    pub state: Option<AgentState>,
    /// The project the open session belongs to.
    pub current: bool,
    /// Draw the collapse chevron.
    pub chevron: bool,
    /// Draw the accent bar on the current project.
    pub current_bar: bool,
}

/// A plain project row: no chevron, no mark, no bar.
pub fn project_group_row(id: &str, name: &str, count: &str, open: bool) -> (r: ProjectGroupRow)
    ensures
        r.id@ == id@,
        r.name@ == name@,
        r.count@ == count@,
        r.open == open,
        !r.muted && !r.current && !r.chevron && !r.current_bar,
        r.mark is None,
        r.trailing is None,
        r.state is None,
{
    ProjectGroupRow {
        id: id.to_string(),
        name: name.to_string(),
        count: count.to_string(),
        open,
        muted: false,
        mark: None,
        trailing: None,
        state: None,
        current: false,
        chevron: false,
        current_bar: false,
    }
}

impl ProjectGroupRow {
    /// Mutes the row.
    pub fn muted(self) -> (r: Self)
        ensures
            r == (ProjectGroupRow { muted: true, ..self }),
    {
        ProjectGroupRow { muted: true, ..self }
    }

    /// The project's mark.
    pub fn mark(self, initial: &str) -> (r: Self)
        ensures
            r == (ProjectGroupRow { mark: r.mark, ..self }),
            r.mark matches Some(m) && m@ == initial@,
    {
        ProjectGroupRow { mark: Some(initial.to_string()), ..self }
    }

    /// The trailing mono text.
    pub fn trailing(self, text: &str) -> (r: Self)
        ensures
            r == (ProjectGroupRow { trailing: r.trailing, ..self }),
            r.trailing matches Some(t) && t@ == text@,
    {
        ProjectGroupRow { trailing: Some(text.to_string()), ..self }
    }

    /// The rolled-up agent state.
    pub fn state(self, state: AgentState) -> (r: Self)
        ensures
            r == (ProjectGroupRow { state: Some(state), ..self }),
    {
        ProjectGroupRow { state: Some(state), ..self }
    }

    /// Marks the current project.
    pub fn current(self) -> (r: Self)
        ensures
            r == (ProjectGroupRow { current: true, ..self }),
    {
        ProjectGroupRow { current: true, ..self }
    }

    /// Draws the collapse chevron.
    pub fn chevron(self, chevron: bool) -> (r: Self)
        ensures
            r == (ProjectGroupRow { chevron, ..self }),
    {
        ProjectGroupRow { chevron, ..self }
    }

    /// Draws the accent bar on the current project.
    pub fn current_bar(self, current_bar: bool) -> (r: Self)
        ensures
            r == (ProjectGroupRow { current_bar, ..self }),
    {
        ProjectGroupRow { current_bar, ..self }
    }

    /// The leading box: the chevron when asked, else the mark of a project
    /// that is not muted, else nothing.
    pub fn leading(&self) -> (l: LeadingSlot)
        ensures
            l == if self.chevron {
                LeadingSlot::Chevron
            } else if self.mark is Some && !self.muted {
                LeadingSlot::Mark
            } else {
                LeadingSlot::Plain
            },
    {
        if self.chevron {
            LeadingSlot::Chevron
        } else if self.mark.is_some() && !self.muted {
            LeadingSlot::Mark
        } else {
            LeadingSlot::Plain
        }
    }

    /// The left-edge bar: the rolled-up state wins the slot; else a current
    /// project asked to show its bar gets the accent bar. `current` alone
    /// changes nothing.
    pub fn edge_bar(&self) -> (b: EdgeBar)
        ensures
            b == match self.state {
                Some(st) => EdgeBar::State(st),
                None => if self.current && self.current_bar {
                    EdgeBar::Current
                } else {
                    EdgeBar::Nothing
                },
            },
    {
        match self.state {
            Some(st) => EdgeBar::State(st),
            None => if self.current && self.current_bar {
                EdgeBar::Current
            } else {
                EdgeBar::Nothing
            },
        }
    }

    /// Whether the count is drawn: an empty count draws nothing.
    pub fn shows_count(&self) -> (b: bool)
        ensures
            b == (self.count@.len() > 0),
    {
        !self.count.as_str().is_empty()
    }
}

/// A date group: the caps header and the flat rows under it.
#[derive(Debug, PartialEq)]
pub struct DateGroup {
    /// `Today`, `Yesterday`, `This week`.
    pub label: String,
    /// The rows under the header.
    pub sessions: Vec<SessionSummary>,
}

impl DateGroup {
    /// A date group.
    pub fn new(label: &str, sessions: Vec<SessionSummary>) -> (g: Self)
        ensures
            g.label@ == label@,
            g.sessions == sessions,
    {
        DateGroup { label: label.to_string(), sessions }
    }
}

/// How a sidebar view groups its sessions. The variant carries the groups,
/// because each grouping has its own header shape.
#[derive(Debug, PartialEq)]
pub enum Grouping {
    /// Collapsible status groups with a chevron header.
    Status(Vec<StatusGroup>),
    /// Project rows with nested sessions.
    Project(Vec<ProjectGroup>),
    /// Flat rows under caps date headers.
    Date(Vec<DateGroup>),
}

/// Which section of a grouping a [`SidebarRow::Session`] belongs to.
#[derive(Debug, Clone, Copy, PartialEq, Eq, Structural)]
pub enum SessionScope {
    /// A status group's session.
    Status,
    /// A project group's session.
    Project,
    /// A pinned session lifted into the leading group of a date grouping.
    Pinned,
    /// A date bucket's session; `dated` is the bucket's index among the
    /// buckets that still have rows.
    Date {
        /// Index among non-empty buckets.
        dated: usize,
    },
}

/// One flattened row of a sidebar grouping. Build with [`flatten_sidebar`].
#[derive(Debug, Clone, Copy, PartialEq, Eq, Structural)]
pub enum SidebarRow {
    /// The caps caption row; emitted first when the view has a caption.
    Caption,
    /// A collapsible status header; `group` indexes the status groups.
    StatusHeader {
        /// Index into the status groups.
        group: usize,
    },
    /// A project group head; `group` indexes the project groups.
    ProjectHead {
        /// Index into the project groups.
        group: usize,
    },
    /// The leading `Pinned` header of a date grouping (only when a pinned
    /// session exists).
    PinnedHeader,
    /// A date bucket header; `group` indexes all buckets, `dated` the ones
    /// that still have rows.
    DateHeader {
        /// Index into all date buckets.
        group: usize,
        /// Index among buckets that still have rows.
        dated: usize,
    },
    /// One session; `group`/`session` index the source grouping.
    Session {
        /// Which section of the grouping this row belongs to.
        scope: SessionScope,
        /// Group or bucket index in the source grouping.
        group: usize,
        /// Session index in the group's own vec.
        session: usize,
    },
    /// A project's "Show N more" / "Show less" row.
    Fold {
        /// Index into the project groups.
        group: usize,
    },
}

/// The session rows `0..n` of group `g` in `scope`.
pub open spec fn session_rows(scope: SessionScope, g: int, n: int) -> Seq<SidebarRow> {
    Seq::new(n as nat, |s: int| SidebarRow::Session { scope, group: g as usize, session: s as usize })
}

/// The rows of the first `k` status groups: each header, then the group's
/// sessions when it is open.
pub open spec fn status_rows(gs: Seq<StatusGroup>, k: int) -> Seq<SidebarRow>
    decreases k,
{
    if k <= 0 {
        seq![]
    } else {
        status_rows(gs, k - 1) + seq![SidebarRow::StatusHeader { group: (k - 1) as usize }] + if gs[k
            - 1].open {
            session_rows(SessionScope::Status, k - 1, gs[k - 1].sessions@.len() as int)
        } else {
            seq![]
        }
    }
}

/// Whether a project group holds some of its rows back behind a fold.
pub open spec fn holds_rows_back(g: ProjectGroup) -> bool {
    g.fold matches Some((hidden, _)) && hidden > 0
}

/// Whether a project group shows its fold row: it is open and holds rows
/// back.
pub open spec fn shows_fold(g: ProjectGroup) -> bool {
    g.open && (g.fold matches Some((hidden, _)) && hidden > 0)
}

/// The rows of the first `k` project groups: each head, then — when open —
/// its sessions and the fold row when rows are held back.
pub open spec fn project_rows(gs: Seq<ProjectGroup>, k: int) -> Seq<SidebarRow>
    decreases k,
{
    if k <= 0 {
        seq![]
    } else {
        project_rows(gs, k - 1) + seq![SidebarRow::ProjectHead { group: (k - 1) as usize }] + (if gs[k
            - 1].open {
            session_rows(SessionScope::Project, k - 1, gs[k - 1].sessions@.len() as int)
        } else {
            seq![]
        }) + if shows_fold(gs[k - 1]) {
            seq![SidebarRow::Fold { group: (k - 1) as usize }]
        } else {
            seq![]
        }
    }
}

/// The pinned rows among the first `m` sessions of bucket `g`.
pub open spec fn pinned_in(ss: Seq<SessionSummary>, g: int, m: int) -> Seq<SidebarRow>
    decreases m,
{
    if m <= 0 {
        seq![]
    } else {
        pinned_in(ss, g, m - 1) + if ss[m - 1].pinned {
            seq![
                SidebarRow::Session {
                    scope: SessionScope::Pinned,
                    group: g as usize,
                    session: (m - 1) as usize,
                },
            ]
        } else {
            seq![]
        }
    }
}

/// The unpinned rows among the first `m` sessions of bucket `g`, the
/// `d`-th non-empty bucket.
pub open spec fn unpinned_in(ss: Seq<SessionSummary>, g: int, d: int, m: int) -> Seq<SidebarRow>
    decreases m,
{
    if m <= 0 {
        seq![]
    } else {
        unpinned_in(ss, g, d, m - 1) + if !ss[m - 1].pinned {
            seq![
                SidebarRow::Session {
                    scope: SessionScope::Date { dated: d as usize },
                    group: g as usize,
                    session: (m - 1) as usize,
                },
            ]
        } else {
            seq![]
        }
    }
}

/// Whether bucket `b` still has a row once its pinned sessions are lifted.
pub open spec fn has_unpinned(b: DateGroup) -> bool {
    exists|i: int| 0 <= i < b.sessions@.len() && !#[trigger] b.sessions@[i].pinned
}

/// The pinned rows of the first `k` buckets, in bucket order.
pub open spec fn pinned_rows(gs: Seq<DateGroup>, k: int) -> Seq<SidebarRow>
    decreases k,
{
    if k <= 0 {
        seq![]
    } else {
        pinned_rows(gs, k - 1) + pinned_in(gs[k - 1].sessions@, k - 1, gs[k - 1].sessions@.len() as int)
    }
}

/// How many of the first `k` buckets still have rows.
pub open spec fn dated_count(gs: Seq<DateGroup>, k: int) -> int
    decreases k,
{
    if k <= 0 {
        0
    } else {
        dated_count(gs, k - 1) + if has_unpinned(gs[k - 1]) {
            1int
        } else {
            0int
        }
    }
}

/// The bucket rows of the first `k` buckets: each bucket that still has
/// rows draws its header (numbered among such buckets) and its unpinned
/// sessions.
pub open spec fn bucket_rows(gs: Seq<DateGroup>, k: int) -> Seq<SidebarRow>
    decreases k,
{
    if k <= 0 {
        seq![]
    } else {
        let d = dated_count(gs, k - 1);
        bucket_rows(gs, k - 1) + if has_unpinned(gs[k - 1]) {
            seq![SidebarRow::DateHeader { group: (k - 1) as usize, dated: d as usize }]
                + unpinned_in(gs[k - 1].sessions@, k - 1, d, gs[k - 1].sessions@.len() as int)
        } else {
            seq![]
        }
    }
}

/// A date grouping's rows: the `Pinned` section (header and rows) when a
/// pinned session exists, then the buckets.
pub open spec fn date_rows(gs: Seq<DateGroup>) -> Seq<SidebarRow> {
    let pinned = pinned_rows(gs, gs.len() as int);
    (if pinned.len() > 0 {
        seq![SidebarRow::PinnedHeader] + pinned
    } else {
        seq![]
    }) + bucket_rows(gs, gs.len() as int)
}

/// A grouping's rows in render order: the caption first when there is one,
/// then the grouping's own rows.
pub open spec fn spec_flatten(grouping: Grouping, caption: bool) -> Seq<SidebarRow> {
    (if caption {
        seq![SidebarRow::Caption]
    } else {
        seq![]
    }) + match grouping {
        Grouping::Status(gs) => status_rows(gs@, gs@.len() as int),
        Grouping::Project(gs) => project_rows(gs@, gs@.len() as int),
        Grouping::Date(gs) => date_rows(gs@),
    }
}

/// Whether `row` points at something that exists in `grouping`: headers at
/// a group of the grouping's own kind, sessions at a session of that group.
pub open spec fn row_fits(row: SidebarRow, grouping: Grouping) -> bool {
    match row {
        SidebarRow::Caption => true,
        SidebarRow::StatusHeader { group } => grouping matches Grouping::Status(gs) && group
            < gs@.len(),
        SidebarRow::ProjectHead { group } => grouping matches Grouping::Project(gs) && group
            < gs@.len(),
        SidebarRow::Fold { group } => grouping matches Grouping::Project(gs) && group < gs@.len(),
        SidebarRow::PinnedHeader => grouping is Date,
        SidebarRow::DateHeader { group, .. } => grouping matches Grouping::Date(gs) && group
            < gs@.len(),
        SidebarRow::Session { scope, group, session } => match (grouping, scope) {
            (Grouping::Status(gs), SessionScope::Status) => group < gs@.len() && session
                < gs@[group as int].sessions@.len(),
            (Grouping::Project(gs), SessionScope::Project) => group < gs@.len() && session
                < gs@[group as int].sessions@.len(),
            (Grouping::Date(gs), SessionScope::Pinned) => group < gs@.len() && session
                < gs@[group as int].sessions@.len(),
            (Grouping::Date(gs), SessionScope::Date { .. }) => group < gs@.len() && session
                < gs@[group as int].sessions@.len(),
            _ => false,
        },
    }
}

/// Whether every row of `rows` fits `grouping`.
pub open spec fn rows_fit(rows: Seq<SidebarRow>, grouping: Grouping) -> bool {
    forall|i: int| 0 <= i < rows.len() ==> row_fits(#[trigger] rows[i], grouping)
}

/// The session a fitting session row points at.
pub open spec fn summary_at(grouping: Grouping, group: int, session: int) -> SessionSummary {
    match grouping {
        Grouping::Status(gs) => gs@[group].sessions@[session],
        Grouping::Project(gs) => gs@[group].sessions@[session],
        Grouping::Date(gs) => gs@[group].sessions@[session],
    }
}

/// Whether sessions `0..n` of group `g` exist in `grouping` under `scope`.
pub open spec fn sessions_fit(grouping: Grouping, scope: SessionScope, g: int, n: int) -> bool {
    match (grouping, scope) {
        (Grouping::Status(gs), SessionScope::Status) => 0 <= g < gs@.len() && n
            <= gs@[g].sessions@.len(),
        (Grouping::Project(gs), SessionScope::Project) => 0 <= g < gs@.len() && n
            <= gs@[g].sessions@.len(),
        (Grouping::Date(gs), SessionScope::Pinned) => 0 <= g < gs@.len() && n
            <= gs@[g].sessions@.len(),
        (Grouping::Date(gs), SessionScope::Date { .. }) => 0 <= g < gs@.len() && n
            <= gs@[g].sessions@.len(),
        _ => false,
    }
}

fn push_sessions(
    rows: &mut Vec<SidebarRow>,
    scope: SessionScope,
    g: usize,
    n: usize,
    Ghost(grouping): Ghost<Grouping>,
)
    requires
        sessions_fit(grouping, scope, g as int, n as int),
        rows_fit(old(rows)@, grouping),
    ensures
        final(rows)@ == old(rows)@ + session_rows(scope, g as int, n as int),
        rows_fit(final(rows)@, grouping),
{
    let ghost start = old(rows)@;
    for s in 0..n
        invariant
            rows@ == start + session_rows(scope, g as int, s as int),
            rows_fit(rows@, grouping),
            sessions_fit(grouping, scope, g as int, n as int),
    {
        rows.push(SidebarRow::Session { scope, group: g, session: s });
        assert(session_rows(scope, g as int, s + 1) == session_rows(scope, g as int, s as int).push(
            SidebarRow::Session { scope, group: g, session: s },
        ));
    }
}

fn flatten_status(rows: &mut Vec<SidebarRow>, groups: &Vec<StatusGroup>, Ghost(grouping): Ghost<Grouping>)
    requires
        grouping == Grouping::Status(*groups),
        rows_fit(old(rows)@, grouping),
    ensures
        final(rows)@ == old(rows)@ + status_rows(groups@, groups@.len() as int),
        rows_fit(final(rows)@, grouping),
{
    let ghost start = old(rows)@;
    for g in 0..groups.len()
        invariant
            grouping == Grouping::Status(*groups),
            rows@ == start + status_rows(groups@, g as int),
            rows_fit(rows@, grouping),
    {
        rows.push(SidebarRow::StatusHeader { group: g });
        if groups[g].open {
            push_sessions(rows, SessionScope::Status, g, groups[g].sessions.len(), Ghost(grouping));
        } else {
            assert(rows@ == start + status_rows(groups@, g + 1));
        }
    }
}

fn flatten_project(rows: &mut Vec<SidebarRow>, groups: &Vec<ProjectGroup>, Ghost(grouping): Ghost<Grouping>)
    requires
        grouping == Grouping::Project(*groups),
        rows_fit(old(rows)@, grouping),
    ensures
        final(rows)@ == old(rows)@ + project_rows(groups@, groups@.len() as int),
        rows_fit(final(rows)@, grouping),
{
    let ghost start = old(rows)@;
    for g in 0..groups.len()
        invariant
            grouping == Grouping::Project(*groups),
            rows@ == start + project_rows(groups@, g as int),
            rows_fit(rows@, grouping),
    {
        let ghost before = rows@;
        rows.push(SidebarRow::ProjectHead { group: g });
        let group = &groups[g];
        if group.open {
            push_sessions(rows, SessionScope::Project, g, group.sessions.len(), Ghost(grouping));
            let folded = match group.fold {
                Some((hidden, _)) => hidden > 0,
                None => false,
            };
            if folded {
                rows.push(SidebarRow::Fold { group: g });
            }
        }
        assert(rows@ == before + project_rows(groups@, g + 1).skip(
            project_rows(groups@, g as int).len() as int,
        ));
        assert(rows@ == start + project_rows(groups@, g + 1));
    }
}

fn extend_rows(rows: &mut Vec<SidebarRow>, more: &Vec<SidebarRow>, Ghost(grouping): Ghost<Grouping>)
    requires
        rows_fit(old(rows)@, grouping),
        rows_fit(more@, grouping),
    ensures
        final(rows)@ == old(rows)@ + more@,
        rows_fit(final(rows)@, grouping),
{
    let ghost start = old(rows)@;
    for i in 0..more.len()
        invariant
            rows@ == start + more@.take(i as int),
            rows_fit(rows@, grouping),
            rows_fit(more@, grouping),
    {
        rows.push(more[i]);
        assert(more@.take(i + 1) == more@.take(i as int).push(more@[i as int]));
    }
    assert(more@.take(more@.len() as int) == more@);
}

fn flatten_date(rows: &mut Vec<SidebarRow>, groups: &Vec<DateGroup>, Ghost(grouping): Ghost<Grouping>)
    requires
        grouping == Grouping::Date(*groups),
        rows_fit(old(rows)@, grouping),
    ensures
        final(rows)@ == old(rows)@ + date_rows(groups@),
        rows_fit(final(rows)@, grouping),
{
    let ghost start = old(rows)@;
    let mut pinned: Vec<SidebarRow> = Vec::new();
    let mut has: Vec<bool> = Vec::new();
    for g in 0..groups.len()
        invariant
            grouping == Grouping::Date(*groups),
            pinned@ == pinned_rows(groups@, g as int),
            rows_fit(pinned@, grouping),
            has@.len() == g,
            forall|j: int| 0 <= j < g ==> has@[j] == has_unpinned(#[trigger] groups@[j]),
    {
        let ss = &groups[g].sessions;
        let mut any = false;
        for s in 0..ss.len()
            invariant
                grouping == Grouping::Date(*groups),
                ss == groups@[g as int].sessions,
                g < groups@.len(),
                pinned@ == pinned_rows(groups@, g as int) + pinned_in(ss@, g as int, s as int),
                rows_fit(pinned@, grouping),
                any == (exists|i: int| 0 <= i < s && !#[trigger] ss@[i].pinned),
        {
            if ss[s].pinned {
                pinned.push(SidebarRow::Session { scope: SessionScope::Pinned, group: g, session: s });
            } else {
                any = true;
            }
            assert(any == (exists|i: int| 0 <= i < s + 1 && !#[trigger] ss@[i].pinned)) by {
                if !ss@[s as int].pinned {
                    assert(!ss@[s as int].pinned);
                }
            }
        }
        has.push(any);
    }
    let ghost pinned_part: Seq<SidebarRow> = if pinned@.len() > 0 {
        seq![SidebarRow::PinnedHeader] + pinned@
    } else {
        seq![]
    };
    if pinned.len() > 0 {
        rows.push(SidebarRow::PinnedHeader);
        extend_rows(rows, &pinned, Ghost(grouping));
    }
    assert(rows@ == start + pinned_part);
    let mut d: usize = 0;
    for g in 0..groups.len()
        invariant
            grouping == Grouping::Date(*groups),
            rows@ == start + pinned_part + bucket_rows(groups@, g as int),
            rows_fit(rows@, grouping),
            has@.len() == groups@.len(),
            forall|j: int| 0 <= j < groups@.len() ==> has@[j] == has_unpinned(#[trigger] groups@[j]),
            d == dated_count(groups@, g as int),
            d <= g,
    {
        let ghost before = rows@;
        if has[g] {
            rows.push(SidebarRow::DateHeader { group: g, dated: d });
            let ss = &groups[g].sessions;
            let ghost head = rows@;
            for s in 0..ss.len()
                invariant
                    grouping == Grouping::Date(*groups),
                    ss == groups@[g as int].sessions,
                    g < groups@.len(),
                    rows@ == head + unpinned_in(ss@, g as int, d as int, s as int),
                    rows_fit(rows@, grouping),
            {
                if !ss[s].pinned {
                    rows.push(
                        SidebarRow::Session { scope: SessionScope::Date { dated: d }, group: g, session: s },
                    );
                }
            }
            d = d + 1;
        }
        assert(rows@ == start + pinned_part + bucket_rows(groups@, g + 1));
    }
}

/// Flattens a grouping into its rows, in render order: the caption first
/// when `caption` is set, then per group the header/head plus — for open
/// groups only — the sessions and (project only) the fold row when rows
/// are held back. Closed groups contribute only their header/head.
///
/// Date groupings lift pinned sessions into a leading `Pinned` section ahead
/// of the buckets; a bucket left with no rows draws no header, and `dated`
/// counts only the buckets that still have rows.
///
/// The laws over these rows are proved beside them: the caption is one
/// leading row and never recurs ([`lemma_caption_is_one_leading_row`]),
/// closed groups show no sessions ([`lemma_closed_groups_show_no_sessions`]),
/// pinned rows lead ([`lemma_pinned_sessions_lead`]), and a date grouping
/// places every session exactly once, in order, under headers numbered by
/// rank (`nav::date_layout::lemma_date_grouping_places_each_session`).
pub fn flatten_sidebar(grouping: &Grouping, caption: bool) -> (rows: Vec<SidebarRow>)
    ensures
        rows@ == spec_flatten(*grouping, caption),
        rows_fit(rows@, *grouping),
{
    let mut rows: Vec<SidebarRow> = Vec::new();
    if caption {
        rows.push(SidebarRow::Caption);
    }
    let ghost head = rows@;
    match grouping {
        Grouping::Status(groups) => flatten_status(&mut rows, groups, Ghost(*grouping)),
        Grouping::Project(groups) => flatten_project(&mut rows, groups, Ghost(*grouping)),
        Grouping::Date(groups) => flatten_date(&mut rows, groups, Ghost(*grouping)),
    }
    rows
}

/// The session a flattened row points at.
pub fn session_summary<'a>(grouping: &'a Grouping, scope: &SessionScope, group: usize, session: usize) -> (s: &'a SessionSummary)
    requires
        row_fits(SidebarRow::Session { scope: *scope, group, session }, *grouping),
    ensures
        *s == summary_at(*grouping, group as int, session as int),
{
    match grouping {
        Grouping::Status(groups) => &groups[group].sessions[session],
        Grouping::Project(groups) => &groups[group].sessions[session],
        Grouping::Date(groups) => &groups[group].sessions[session],
    }
}

/// Whether `row` is a session row for the session with id `id`.
pub open spec fn row_has_session(row: SidebarRow, grouping: Grouping, id: Seq<char>) -> bool {
    row matches SidebarRow::Session { group, session, .. } && summary_at(
        grouping,
        group as int,
        session as int,
    ).id@ == id
}

/// Whether every session row of `rows` up to the first one for `id` points
/// at a session of `grouping`: the rows a search for `id` reads.
pub open spec fn searched_rows_fit(rows: Seq<SidebarRow>, grouping: Grouping, id: Seq<char>) -> bool {
    forall|j: int|
        0 <= j < rows.len() && (#[trigger] rows[j] is Session) && (forall|k: int|
            0 <= k < j ==> !row_has_session(rows[k], grouping, id)) ==> row_fits(rows[j], grouping)
}

/// The flattened index of `session_id`, or `None` when the session has no
/// row: an unknown id, or a session the caller held back behind a fold.
pub fn row_index_for_session(rows: &[SidebarRow], grouping: &Grouping, session_id: &str) -> (ix: Option<usize>)
    requires
        searched_rows_fit(rows@, *grouping, session_id@),
    ensures
        match ix {
            Some(i) => i < rows@.len() && row_has_session(rows@[i as int], *grouping, session_id@)
                && forall|j: int| 0 <= j < i ==> !row_has_session(rows@[j], *grouping, session_id@),
            None => forall|j: int|
                0 <= j < rows@.len() ==> !row_has_session(rows@[j], *grouping, session_id@),
        },
{
    let mut i: usize = 0;
    while i < rows.len()
        invariant
            i <= rows@.len(),
            searched_rows_fit(rows@, *grouping, session_id@),
            forall|j: int| 0 <= j < i ==> !row_has_session(rows@[j], *grouping, session_id@),
        decreases rows@.len() - i,
    {
        let row = rows[i];
        if let SidebarRow::Session { scope, group, session } = row {
            let summary = session_summary(grouping, &scope, group, session);
            if crate::text::same_text(summary.id.as_str(), session_id) {
                return Some(i);
            }
        }
        i = i + 1;
    }
    None
}

/// The label of a project's fold row: "Show {hidden} more", or "Show less"
/// once expanded.
pub fn fold_label(hidden: usize, expanded: bool) -> (label: String)
    ensures
        label@ == if expanded {
            "Show less"@
        } else {
            "Show "@ + decimal(hidden as nat) + " more"@
        },
{
    if expanded {
        "Show less".to_string()
    } else {
        let mut out = chars_of("Show ");
        let n = decimal_chars(hidden as u64);
        extend_chars(&mut out, &n);
        extend_str(&mut out, " more");
        string_from(&out)
    }
}

/// How many of the first `k` buckets' sessions are pinned.
pub open spec fn pinned_count(gs: Seq<DateGroup>, k: int) -> int
    decreases k,
{
    if k <= 0 {
        0
    } else {
        pinned_count(gs, k - 1) + gs[k - 1].sessions@.filter(|s: SessionSummary| s.pinned).len()
    }
}

/// Whether a session row of `grouping` sits in an open group (date
/// buckets have no open flag and always show their rows).
pub open spec fn in_open_group(row: SidebarRow, grouping: Grouping) -> bool {
    match row {
        SidebarRow::Session { group, .. } => match grouping {
            Grouping::Status(gs) => gs@[group as int].open,
            Grouping::Project(gs) => gs@[group as int].open,
            Grouping::Date(_) => true,
        },
        _ => true,
    }
}

proof fn lemma_session_rows_in(scope: SessionScope, g: int, n: int)
    requires
        0 <= g,
        0 <= n,
    ensures
        forall|i: int|
            0 <= i < n ==> (#[trigger] session_rows(scope, g, n)[i] matches SidebarRow::Session {
                scope: sc,
                group,
                ..
            } && sc == scope && group == g as usize),
{
}

proof fn lemma_status_rows_open(gs: Seq<StatusGroup>, k: int)
    requires
        0 <= k <= gs.len(),
        gs.len() <= usize::MAX,
    ensures
        forall|i: int|
            0 <= i < status_rows(gs, k).len() ==> (#[trigger] status_rows(gs, k)[i] matches SidebarRow::Session {
                group,
                ..
            } ==> group < k && gs[group as int].open) && !(status_rows(gs, k)[i] is Caption) && !(status_rows(
                gs,
                k,
            )[i] is Fold),
    decreases k,
{
    if k > 0 {
        lemma_status_rows_open(gs, k - 1);
        let a = status_rows(gs, k - 1);
        let h = seq![SidebarRow::StatusHeader { group: (k - 1) as usize }];
        let b = if gs[k - 1].open {
            session_rows(SessionScope::Status, k - 1, gs[k - 1].sessions@.len() as int)
        } else {
            seq![]
        };
        lemma_session_rows_in(SessionScope::Status, k - 1, gs[k - 1].sessions@.len() as int);
        assert(status_rows(gs, k) == a + h + b);
        assert forall|i: int| 0 <= i < status_rows(gs, k).len() implies (#[trigger] status_rows(
            gs,
            k,
        )[i] matches SidebarRow::Session { group, .. } ==> group < k && gs[group as int].open) && !(status_rows(
            gs,
            k,
        )[i] is Caption) && !(status_rows(gs, k)[i] is Fold) by {
            if i < a.len() {
                assert(status_rows(gs, k)[i] == a[i]);
            } else if i == a.len() {
                assert(status_rows(gs, k)[i] == h[0]);
            } else {
                assert(status_rows(gs, k)[i] == b[i - a.len() - 1]);
            }
        }
    }
}

proof fn lemma_project_rows_open(gs: Seq<ProjectGroup>, k: int)
    requires
        0 <= k <= gs.len(),
        gs.len() <= usize::MAX,
    ensures
        forall|i: int|
            0 <= i < project_rows(gs, k).len() ==> (#[trigger] project_rows(gs, k)[i] matches SidebarRow::Session {
                group,
                ..
            } ==> group < k && gs[group as int].open) && !(project_rows(gs, k)[i] is Caption) && (project_rows(
                gs,
                k,
            )[i] matches SidebarRow::Fold { group } ==> group < k && gs[group as int].open && holds_rows_back(gs[group as int])),
    decreases k,
{
    if k > 0 {
        lemma_project_rows_open(gs, k - 1);
        let a = project_rows(gs, k - 1);
        let h = seq![SidebarRow::ProjectHead { group: (k - 1) as usize }];
        let b = if gs[k - 1].open {
            session_rows(SessionScope::Project, k - 1, gs[k - 1].sessions@.len() as int)
        } else {
            seq![]
        };
        let f = if shows_fold(gs[k - 1]) {
            seq![SidebarRow::Fold { group: (k - 1) as usize }]
        } else {
            seq![]
        };
        lemma_session_rows_in(SessionScope::Project, k - 1, gs[k - 1].sessions@.len() as int);
        assert(project_rows(gs, k) == a + h + b + f);
        assert forall|i: int| 0 <= i < project_rows(gs, k).len() implies (#[trigger] project_rows(
            gs,
            k,
        )[i] matches SidebarRow::Session { group, .. } ==> group < k && gs[group as int].open) && !(project_rows(
            gs,
            k,
        )[i] is Caption) && (project_rows(gs, k)[i] matches SidebarRow::Fold { group } ==> group < k && gs[group as int].open
            && holds_rows_back(gs[group as int])) by {
            if i < a.len() {
                assert(project_rows(gs, k)[i] == a[i]);
            } else if i == a.len() {
                assert(project_rows(gs, k)[i] == h[0]);
            } else if i < a.len() + 1 + b.len() {
                assert(project_rows(gs, k)[i] == b[i - a.len() - 1]);
            } else {
                assert(project_rows(gs, k)[i] == f[i - a.len() - 1 - b.len()]);
            }
        }
    }
}

/// A closed group contributes only its header: no flattened session row
/// points into a closed status or project group.
pub proof fn lemma_closed_groups_show_no_sessions(grouping: Grouping, caption: bool)
    ensures
        forall|i: int|
            0 <= i < spec_flatten(grouping, caption).len() ==> in_open_group(
                #[trigger] spec_flatten(grouping, caption)[i],
                grouping,
            ),
{
    let c: Seq<SidebarRow> = if caption {
        seq![SidebarRow::Caption]
    } else {
        seq![]
    };
    match grouping {
        Grouping::Status(gs) => {
            assert(gs@.len() == gs.len());
            lemma_status_rows_open(gs@, gs@.len() as int);
            let body = status_rows(gs@, gs@.len() as int);
            assert forall|i: int| 0 <= i < spec_flatten(grouping, caption).len() implies in_open_group(
                #[trigger] spec_flatten(grouping, caption)[i],
                grouping,
            ) by {
                if i >= c.len() {
                    assert(spec_flatten(grouping, caption)[i] == body[i - c.len()]);
                }
            }
        },
        Grouping::Project(gs) => {
            assert(gs@.len() == gs.len());
            lemma_project_rows_open(gs@, gs@.len() as int);
            let body = project_rows(gs@, gs@.len() as int);
            assert forall|i: int| 0 <= i < spec_flatten(grouping, caption).len() implies in_open_group(
                #[trigger] spec_flatten(grouping, caption)[i],
                grouping,
            ) by {
                if i >= c.len() {
                    assert(spec_flatten(grouping, caption)[i] == body[i - c.len()]);
                }
            }
        },
        Grouping::Date(_) => {},
    }
}

/// The caption is one leading row: with a caption the rows are the caption
/// followed by exactly the rows without one, and those never hold a
/// caption.
pub proof fn lemma_caption_is_one_leading_row(grouping: Grouping)
    ensures
        spec_flatten(grouping, true) == seq![SidebarRow::Caption] + spec_flatten(grouping, false),
        forall|i: int|
            0 <= i < spec_flatten(grouping, false).len() ==> !(#[trigger] spec_flatten(grouping, false)[i] is Caption),
{
    assert(spec_flatten(grouping, false) == Seq::<SidebarRow>::empty() + spec_flatten(grouping, false).skip(0));
    let rows = spec_flatten(grouping, false);
    match grouping {
        Grouping::Status(gs) => {
            assert(gs@.len() == gs.len());
            lemma_status_rows_open(gs@, gs@.len() as int);
            assert(rows == status_rows(gs@, gs@.len() as int));
        },
        Grouping::Project(gs) => {
            assert(gs@.len() == gs.len());
            lemma_project_rows_open(gs@, gs@.len() as int);
            assert(rows == project_rows(gs@, gs@.len() as int));
        },
        Grouping::Date(gs) => {
            assert(gs@.len() == gs.len());
            let n = gs@.len() as int;
            lemma_pinned_rows(gs@, n);
            lemma_bucket_rows(gs@, n);
            let pinned = pinned_rows(gs@, n);
            let p: Seq<SidebarRow> = if pinned.len() > 0 {
                seq![SidebarRow::PinnedHeader] + pinned
            } else {
                seq![]
            };
            let b = bucket_rows(gs@, n);
            assert(rows == p + b);
            assert forall|i: int| 0 <= i < rows.len() implies !(#[trigger] rows[i] is Caption) by {
                if i < p.len() {
                    if i > 0 {
                        assert(rows[i] == pinned[i - 1]);
                    }
                } else {
                    assert(rows[i] == b[i - p.len()]);
                }
            }
        },
    }
}

/// A fold row belongs to an open project that holds rows back: a closed
/// project contributes only its head, and neither a status nor a date
/// grouping has fold rows at all.
pub proof fn lemma_folds_sit_under_open_projects(grouping: Grouping, caption: bool)
    ensures
        forall|i: int|
            0 <= i < spec_flatten(grouping, caption).len() ==> (#[trigger] spec_flatten(grouping, caption)[i] matches SidebarRow::Fold {
                group,
            } ==> (grouping matches Grouping::Project(gs) && group < gs@.len() && gs@[group as int].open
                && holds_rows_back(gs@[group as int]))),
{
    let c: Seq<SidebarRow> = if caption {
        seq![SidebarRow::Caption]
    } else {
        seq![]
    };
    let all = spec_flatten(grouping, caption);
    match grouping {
        Grouping::Status(gs) => {
            assert(gs@.len() == gs.len());
            lemma_status_rows_open(gs@, gs@.len() as int);
            let body = status_rows(gs@, gs@.len() as int);
            assert forall|i: int| 0 <= i < all.len() implies !(#[trigger] all[i] is Fold) by {
                if i >= c.len() {
                    assert(all[i] == body[i - c.len()]);
                }
            }
        },
        Grouping::Project(gs) => {
            assert(gs@.len() == gs.len());
            lemma_project_rows_open(gs@, gs@.len() as int);
            let body = project_rows(gs@, gs@.len() as int);
            assert forall|i: int| 0 <= i < all.len() && (#[trigger] all[i] is Fold) implies (all[i] matches SidebarRow::Fold {
                group,
            } ==> (group < gs@.len() && gs@[group as int].open && holds_rows_back(gs@[group as int]))) by {
                if i >= c.len() {
                    assert(all[i] == body[i - c.len()]);
                }
            }
        },
        Grouping::Date(gs) => {
            assert(gs@.len() == gs.len());
            let n = gs@.len() as int;
            lemma_pinned_rows(gs@, n);
            lemma_bucket_rows(gs@, n);
            let pinned = pinned_rows(gs@, n);
            let p: Seq<SidebarRow> = if pinned.len() > 0 {
                seq![SidebarRow::PinnedHeader] + pinned
            } else {
                seq![]
            };
            let b = bucket_rows(gs@, n);
            assert(all == c + (p + b));
            assert forall|i: int| 0 <= i < all.len() implies !(#[trigger] all[i] is Fold) by {
                if i >= c.len() {
                    let j = i - c.len();
                    assert(all[i] == (p + b)[j]);
                    if j < p.len() {
                        if j > 0 {
                            assert((p + b)[j] == pinned[j - 1]);
                        }
                    } else {
                        assert((p + b)[j] == b[j - p.len()]);
                    }
                }
            }
        },
    }
}

/// Whether `row` is a session row in the pinned section.
pub open spec fn is_pinned_row(row: SidebarRow) -> bool {
    row matches SidebarRow::Session { scope: SessionScope::Pinned, .. }
}

/// Whether `row` is a bucket's session row or header.
pub open spec fn is_bucket_row(row: SidebarRow, gs: Seq<DateGroup>) -> bool {
    ||| row matches SidebarRow::DateHeader { .. }
    ||| (row matches SidebarRow::Session { scope: SessionScope::Date { .. }, group, session } && group
        < gs.len() && session < gs[group as int].sessions@.len() && !gs[group as int].sessions@[session as int].pinned)
}

proof fn lemma_pinned_in(gs: Seq<DateGroup>, g: int, m: int)
    requires
        0 <= g < gs.len() <= usize::MAX,
        0 <= m <= gs[g].sessions@.len(),
    ensures
        forall|i: int|
            0 <= i < pinned_in(gs[g].sessions@, g, m).len() ==> {
                let row = #[trigger] pinned_in(gs[g].sessions@, g, m)[i];
                &&& row matches SidebarRow::Session { scope: SessionScope::Pinned, group, session }
                &&& row->Session_group == g
                &&& row->Session_session < m
                &&& gs[g].sessions@[row->Session_session as int].pinned
            },
    decreases m,
{
    assert(gs[g].sessions@.len() == gs[g].sessions.len());
    if m > 0 {
        lemma_pinned_in(gs, g, m - 1);
        let a = pinned_in(gs[g].sessions@, g, m - 1);
        let all = pinned_in(gs[g].sessions@, g, m);
        assert forall|i: int| 0 <= i < all.len() implies {
            let row = #[trigger] all[i];
            &&& row matches SidebarRow::Session { scope: SessionScope::Pinned, group, session }
            &&& row->Session_group == g
            &&& row->Session_session < m
            &&& gs[g].sessions@[row->Session_session as int].pinned
        } by {
            if i < a.len() {
                assert(all[i] == a[i]);
            }
        }
    }
}

proof fn lemma_unpinned_in(gs: Seq<DateGroup>, g: int, d: int, m: int)
    requires
        0 <= g < gs.len() <= usize::MAX,
        0 <= m <= gs[g].sessions@.len(),
    ensures
        forall|i: int|
            0 <= i < unpinned_in(gs[g].sessions@, g, d, m).len() ==> is_bucket_row(
                #[trigger] unpinned_in(gs[g].sessions@, g, d, m)[i],
                gs,
            ),
    decreases m,
{
    assert(gs[g].sessions@.len() == gs[g].sessions.len());
    if m > 0 {
        lemma_unpinned_in(gs, g, d, m - 1);
        let a = unpinned_in(gs[g].sessions@, g, d, m - 1);
        let all = unpinned_in(gs[g].sessions@, g, d, m);
        assert forall|i: int| 0 <= i < all.len() implies is_bucket_row(#[trigger] all[i], gs) by {
            if i < a.len() {
                assert(all[i] == a[i]);
            }
        }
    }
}

proof fn lemma_pinned_rows(gs: Seq<DateGroup>, k: int)
    requires
        0 <= k <= gs.len() <= usize::MAX,
    ensures
        forall|i: int|
            0 <= i < pinned_rows(gs, k).len() ==> {
                let row = #[trigger] pinned_rows(gs, k)[i];
                &&& is_pinned_row(row)
                &&& row->Session_group < k
                &&& row->Session_session < gs[row->Session_group as int].sessions@.len()
                &&& gs[row->Session_group as int].sessions@[row->Session_session as int].pinned
            },
    decreases k,
{
    if k > 0 {
        lemma_pinned_rows(gs, k - 1);
        let ss = gs[k - 1].sessions@;
        lemma_pinned_in(gs, k - 1, ss.len() as int);
        let a = pinned_rows(gs, k - 1);
        let b = pinned_in(ss, k - 1, ss.len() as int);
        let all = pinned_rows(gs, k);
        assert(all == a + b);
        assert forall|i: int| 0 <= i < all.len() implies {
            let row = #[trigger] all[i];
            &&& is_pinned_row(row)
            &&& row->Session_group < k
            &&& row->Session_session < gs[row->Session_group as int].sessions@.len()
            &&& gs[row->Session_group as int].sessions@[row->Session_session as int].pinned
        } by {
            if i < a.len() {
                assert(all[i] == a[i]);
            } else {
                assert(all[i] == b[i - a.len()]);
            }
        }
    }
}

proof fn lemma_bucket_rows(gs: Seq<DateGroup>, k: int)
    requires
        0 <= k <= gs.len() <= usize::MAX,
    ensures
        forall|i: int|
            0 <= i < bucket_rows(gs, k).len() ==> is_bucket_row(#[trigger] bucket_rows(gs, k)[i], gs),
    decreases k,
{
    if k > 0 {
        lemma_bucket_rows(gs, k - 1);
        let ss = gs[k - 1].sessions@;
        let d = dated_count(gs, k - 1);
        lemma_unpinned_in(gs, k - 1, d, ss.len() as int);
        let a = bucket_rows(gs, k - 1);
        let all = bucket_rows(gs, k);
        if has_unpinned(gs[k - 1]) {
            let h = seq![SidebarRow::DateHeader { group: (k - 1) as usize, dated: d as usize }];
            let b = unpinned_in(ss, k - 1, d, ss.len() as int);
            assert(all == a + h + b);
            assert forall|i: int| 0 <= i < all.len() implies is_bucket_row(#[trigger] all[i], gs) by {
                if i < a.len() {
                    assert(all[i] == a[i]);
                } else if i == a.len() {
                    assert(all[i] == h[0]);
                } else {
                    assert(all[i] == b[i - a.len() - 1]);
                }
            }
        } else {
            assert(all == a);
        }
    }
}

/// Date groupings lift pinned sessions ahead of the buckets: a session row
/// is in the leading `Pinned` section exactly when its session is pinned,
/// and every pinned row comes before every bucket header.
pub proof fn lemma_pinned_sessions_lead(grouping: Grouping, caption: bool)
    requires
        grouping is Date,
    ensures
        forall|i: int|
            0 <= i < spec_flatten(grouping, caption).len() ==> (#[trigger] spec_flatten(
                grouping,
                caption,
            )[i] matches SidebarRow::Session { scope, group, session } ==> ((scope
                == SessionScope::Pinned) <==> summary_at(grouping, group as int, session as int).pinned)),
        forall|i: int, j: int|
            0 <= i < spec_flatten(grouping, caption).len() && 0 <= j < spec_flatten(grouping, caption).len()
                && (#[trigger] spec_flatten(grouping, caption)[i] matches SidebarRow::DateHeader { .. })
                && is_pinned_row(#[trigger] spec_flatten(grouping, caption)[j]) ==> j < i,
{
    let gs = grouping->Date_0;
    assert(gs@.len() == gs.len());
    let n = gs@.len() as int;
    lemma_pinned_rows(gs@, n);
    lemma_bucket_rows(gs@, n);
    let c: Seq<SidebarRow> = if caption {
        seq![SidebarRow::Caption]
    } else {
        seq![]
    };
    let pinned = pinned_rows(gs@, n);
    let p: Seq<SidebarRow> = if pinned.len() > 0 {
        seq![SidebarRow::PinnedHeader] + pinned
    } else {
        seq![]
    };
    let b = bucket_rows(gs@, n);
    let all = spec_flatten(grouping, caption);
    assert(all == c + (p + b));
    assert forall|i: int| 0 <= i < all.len() && (c + p).len() <= i implies is_bucket_row(
        #[trigger] all[i],
        gs@,
    ) by {
        assert(all[i] == b[i - (c + p).len()]);
    }
    assert forall|i: int| 0 <= i < all.len() && i < (c + p).len() implies (#[trigger] all[i]
        is Caption || all[i] is PinnedHeader || (is_pinned_row(all[i]) && all[i]->Session_group < n
        && all[i]->Session_session < gs@[all[i]->Session_group as int].sessions@.len()
        && gs@[all[i]->Session_group as int].sessions@[all[i]->Session_session as int].pinned)) by {
        if i < c.len() {
            assert(all[i] == c[i]);
        } else if i < (c + p).len() {
            if i == c.len() {
                assert(all[i] == p[0]);
            } else {
                assert(all[i] == pinned[i - c.len() - 1]);
            }
        }
    }
}

} // verus!
