//! The expanded sidebar: the workspace switcher's mark, and the lines the
//! sidebar draws from its data — or the rail when it is collapsed.
use vstd::prelude::*;

use crate::nav::rail::{is_selected, RailItem, SidebarGroup, SidebarNav};
use crate::text::{chars_of, same_text};

verus! {

/// `char::is_alphanumeric`: whether `c` is Unicode alphabetic or numeric,
/// which depends on `c` alone.
pub uninterp spec fn alphanumeric(c: char) -> bool;

/// `char::to_uppercase`, collected: the Unicode uppercase mapping of `c`,
/// which may be more than one character and depends on `c` alone.
pub uninterp spec fn uppercase(c: char) -> Seq<char>;

/// `char::is_alphanumeric`, whose answer is named by [`alphanumeric`].
#[verifier::external_body]
fn is_alphanumeric(c: char) -> (b: bool)
    ensures
        b == alphanumeric(c),
{
    c.is_alphanumeric()
}

/// `char::to_uppercase` collected into a `String`, named by [`uppercase`].
#[verifier::external_body]
pub(crate) fn to_uppercase(c: char) -> (s: String)
    ensures
        s@ == uppercase(c),
{
    c.to_uppercase().collect()
}

/// The first alphanumeric character of `s` at or after `i`.
pub open spec fn first_alphanumeric_from(s: Seq<char>, i: int) -> Option<char>
    decreases s.len() - i,
{
    if i < 0 || i >= s.len() {
        None
    } else if alphanumeric(s[i]) {
        Some(s[i])
    } else {
        first_alphanumeric_from(s, i + 1)
    }
}

/// The mark the workspace switcher shows: the first alphanumeric character
/// of the workspace's name, uppercased, or a middle dot when it has none.
pub open spec fn mark_initial(workspace: Seq<char>) -> Seq<char> {
    match first_alphanumeric_from(workspace, 0) {
        Some(c) => uppercase(c),
        None => seq!['\u{b7}'],
    }
}

/// The first alphanumeric character of `s`.
pub fn first_alphanumeric(s: &str) -> (c: Option<char>)
    ensures
        c == first_alphanumeric_from(s@, 0),
{
    let chars = chars_of(s);
    let n = chars.len();
    let mut i: usize = 0;
    while i < n
        invariant
            i <= n,
            n == chars@.len(),
            chars@ == s@,
            first_alphanumeric_from(s@, 0) == first_alphanumeric_from(s@, i as int),
        decreases n - i,
    {
        if is_alphanumeric(chars[i]) {
            return Some(chars[i]);
        }
        i = i + 1;
    }
    None
}

/// The initial on the workspace switcher's mark.
pub fn workspace_initial(workspace: &str) -> (initial: String)
    ensures
        initial@ == mark_initial(workspace@),
{
    match first_alphanumeric(workspace) {
        Some(c) => to_uppercase(c),
        None => {
            let mut out: Vec<char> = Vec::new();
            out.push('\u{b7}');
            crate::text::string_from(&out)
        },
    }
}

/// One line of the expanded sidebar, top to bottom.
#[derive(Debug, Clone, Copy, PartialEq, Eq, Structural)]
pub enum SidebarLine {
    /// The header: the workspace switcher and the search, new and collapse
    /// buttons.
    Header,
    /// A primary nav row: an index into the nav items.
    NavItem {
        /// The item's index.
        item: usize,
    },
    /// The caps row of the groups, with view options and add.
    GroupsRow,
    /// A group's header.
    GroupHeader {
        /// The group's index.
        group: usize,
        /// Whether the group is open.
        open: bool,
    },
    /// A session row inside an open group.
    Session {
        /// The group's index.
        group: usize,
        /// The session's index inside the group.
        session: usize,
        /// Whether it is the selected session.
        selected: bool,
    },
    /// The account footer.
    Footer,
}

/// The rows of the first `m` sessions of group `g`.
pub open spec fn session_lines(gs: Seq<SidebarGroup>, selected: Option<String>, g: int, m: int) -> Seq<SidebarLine>
    decreases m,
{
    if m <= 0 {
        Seq::empty()
    } else {
        session_lines(gs, selected, g, m - 1).push(
            SidebarLine::Session {
                group: g as usize,
                session: (m - 1) as usize,
                selected: is_selected(selected, gs[g].sessions@[m - 1].id),
            },
        )
    }
}

/// The first `k` groups: each header, then its sessions while it is open.
pub open spec fn group_lines(gs: Seq<SidebarGroup>, selected: Option<String>, k: int) -> Seq<SidebarLine>
    decreases k,
{
    if k <= 0 {
        Seq::empty()
    } else {
        let g = k - 1;
        group_lines(gs, selected, g).push(SidebarLine::GroupHeader { group: g as usize, open: gs[g].open })
            + if gs[g].open {
            session_lines(gs, selected, g, gs[g].sessions@.len() as int)
        } else {
            Seq::empty()
        }
    }
}

/// The nav rows of the first `k` items.
pub open spec fn nav_lines(k: int) -> Seq<SidebarLine>
    decreases k,
{
    if k <= 0 {
        Seq::empty()
    } else {
        nav_lines(k - 1).push(SidebarLine::NavItem { item: (k - 1) as usize })
    }
}

/// The lines of the expanded sidebar: the header, the nav rows, the groups'
/// caps row, every group (a closed one shows only its header), the footer.
pub open spec fn sidebar_lines(nav: SidebarNav) -> Seq<SidebarLine> {
    seq![SidebarLine::Header] + nav_lines(nav.items@.len() as int) + seq![SidebarLine::GroupsRow] + group_lines(
        nav.groups@,
        nav.selected,
        nav.groups@.len() as int,
    ) + seq![SidebarLine::Footer]
}

/// Whether `line` is a fitting line of `nav`: a nav row names an item, a
/// group header names a group and carries its open state, and a session row
/// names a session of an open group, selected exactly when its id is the
/// selected one.
pub open spec fn line_fits(nav: SidebarNav, line: SidebarLine) -> bool {
    match line {
        SidebarLine::NavItem { item } => item < nav.items@.len(),
        SidebarLine::GroupHeader { group, open } => group < nav.groups@.len() && open == nav.groups@[group as int].open,
        SidebarLine::Session { group, session, selected } => {
            &&& group < nav.groups@.len()
            &&& nav.groups@[group as int].open
            &&& session < nav.groups@[group as int].sessions@.len()
            &&& selected == (nav.selected matches Some(x) && x@ == nav.groups@[group as int].sessions@[session as int].id@)
        },
        _ => true,
    }
}

proof fn lemma_session_lines_fit(nav: SidebarNav, g: int, m: int)
    requires
        0 <= g < nav.groups@.len() <= usize::MAX,
        nav.groups@[g].open,
        0 <= m <= nav.groups@[g].sessions@.len(),
    ensures
        forall|i: int|
            0 <= i < session_lines(nav.groups@, nav.selected, g, m).len() ==> {
                let line = #[trigger] session_lines(nav.groups@, nav.selected, g, m)[i];
                line is Session && line_fits(nav, line)
            },
    decreases m,
{
    assert(nav.groups@[g].sessions@.len() == nav.groups@[g].sessions.len());
    if m > 0 {
        lemma_session_lines_fit(nav, g, m - 1);
        let a = session_lines(nav.groups@, nav.selected, g, m - 1);
        let all = session_lines(nav.groups@, nav.selected, g, m);
        assert forall|i: int| 0 <= i < all.len() implies {
            let line = #[trigger] all[i];
            line is Session && line_fits(nav, line)
        } by {
            if i < a.len() {
                assert(all[i] == a[i]);
            }
        }
    }
}

proof fn lemma_group_lines_fit(nav: SidebarNav, k: int)
    requires
        0 <= k <= nav.groups@.len() <= usize::MAX,
    ensures
        forall|i: int|
            0 <= i < group_lines(nav.groups@, nav.selected, k).len() ==> {
                let line = #[trigger] group_lines(nav.groups@, nav.selected, k)[i];
                (line is GroupHeader || line is Session) && line_fits(nav, line)
            },
    decreases k,
{
    if k > 0 {
        let g = k - 1;
        lemma_group_lines_fit(nav, g);
        let a = group_lines(nav.groups@, nav.selected, g).push(
            SidebarLine::GroupHeader { group: g as usize, open: nav.groups@[g].open },
        );
        let b = if nav.groups@[g].open {
            session_lines(nav.groups@, nav.selected, g, nav.groups@[g].sessions@.len() as int)
        } else {
            Seq::empty()
        };
        if nav.groups@[g].open {
            lemma_session_lines_fit(nav, g, nav.groups@[g].sessions@.len() as int);
        }
        let all = group_lines(nav.groups@, nav.selected, k);
        assert(all == a + b);
        assert forall|i: int| 0 <= i < all.len() implies {
            let line = #[trigger] all[i];
            (line is GroupHeader || line is Session) && line_fits(nav, line)
        } by {
            if i < a.len() - 1 {
                assert(all[i] == group_lines(nav.groups@, nav.selected, g)[i]);
            } else if i >= a.len() {
                assert(all[i] == b[i - a.len()]);
            }
        }
    }
}

proof fn lemma_nav_lines_fit(nav: SidebarNav, k: int)
    requires
        0 <= k <= nav.items@.len(),
    ensures
        nav_lines(k).len() == k,
        forall|i: int| 0 <= i < k ==> #[trigger] nav_lines(k)[i] == (SidebarLine::NavItem { item: i as usize }),
    decreases k,
{
    if k > 0 {
        lemma_nav_lines_fit(nav, k - 1);
        assert forall|i: int| 0 <= i < k implies #[trigger] nav_lines(k)[i] == (SidebarLine::NavItem { item: i as usize }) by {
            if i < k - 1 {
                assert(nav_lines(k)[i] == nav_lines(k - 1)[i]);
            }
        }
    }
}

/// The expanded sidebar's shape: the header leads and the account footer
/// closes; right after the header come the nav rows, one per item in order,
/// then the groups' caps row; and every line names something that exists —
/// a group header carries its group's open state, and a session row sits
/// only under an open group, selected exactly when it is the selected
/// session.
pub proof fn lemma_sidebar_lines_shape(nav: SidebarNav)
    ensures
        ({
            let lines = sidebar_lines(nav);
            let n = nav.items@.len() as int;
            &&& lines.len() >= n + 3
            &&& lines[0] == SidebarLine::Header
            &&& lines.last() == SidebarLine::Footer
            &&& forall|i: int| 0 <= i < n ==> #[trigger] lines[i + 1] == (SidebarLine::NavItem { item: i as usize })
            &&& lines[n + 1] == SidebarLine::GroupsRow
            &&& forall|i: int| 0 <= i < lines.len() ==> line_fits(nav, #[trigger] lines[i])
        }),
{
    assert(nav.items@.len() == nav.items.len());
    assert(nav.groups@.len() == nav.groups.len());
    let n = nav.items@.len() as int;
    lemma_nav_lines_fit(nav, n);
    lemma_group_lines_fit(nav, nav.groups@.len() as int);
    let h = seq![SidebarLine::Header];
    let nl = nav_lines(n);
    let gr = seq![SidebarLine::GroupsRow];
    let gl = group_lines(nav.groups@, nav.selected, nav.groups@.len() as int);
    let f = seq![SidebarLine::Footer];
    let lines = sidebar_lines(nav);
    assert(lines == h + nl + gr + gl + f);
    assert forall|i: int| 0 <= i < n implies #[trigger] lines[i + 1] == (SidebarLine::NavItem { item: i as usize }) by {
        assert(lines[i + 1] == nl[i]);
    }
    assert(lines[n + 1] == SidebarLine::GroupsRow);
    assert forall|i: int| 0 <= i < lines.len() implies line_fits(nav, #[trigger] lines[i]) by {
        if 1 <= i < 1 + n {
            assert(lines[i] == nl[i - 1]);
        } else if 2 + n <= i < 2 + n + gl.len() {
            assert(lines[i] == gl[i - 2 - n]);
        }
    }
}

/// What the sidebar draws: the rail while collapsed, its lines otherwise.
#[derive(Debug)]
pub enum SidebarView {
    /// The collapsed rail's cells.
    Rail(Vec<RailItem>),
    /// The expanded sidebar's lines.
    Lines(Vec<SidebarLine>),
}

/// The sidebar over its data.
#[derive(Debug)]
pub struct Sidebar {
    /// Stable identity of the sidebar.
    pub id: String,
    /// What it renders.
    pub nav: SidebarNav,
    /// Collapsed: the rail instead.
    pub collapsed: bool,
}

/// A sidebar rendering `nav`.
pub fn sidebar(id: &str, nav: SidebarNav) -> (s: Sidebar)
    ensures
        s.id@ == id@,
        s.nav == nav,
        !s.collapsed,
{
    Sidebar { id: id.to_string(), nav, collapsed: false }
}

fn is_selected_id(selected: &Option<String>, id: &String) -> (b: bool)
    ensures
        b == is_selected(*selected, *id),
{
    match selected {
        Some(s) => same_text(s.as_str(), id.as_str()),
        None => false,
    }
}

impl Sidebar {
    /// Collapsed: renders the rail instead.
    pub fn collapsed(self, collapsed: bool) -> (s: Self)
        ensures
            s == (Sidebar { collapsed, ..self }),
    {
        Sidebar { collapsed, ..self }
    }

    /// The lines of the expanded sidebar.
    pub fn lines(&self) -> (out: Vec<SidebarLine>)
        ensures
            out@ == sidebar_lines(self.nav),
    {
        let nav = &self.nav;
        let mut out: Vec<SidebarLine> = Vec::new();
        out.push(SidebarLine::Header);
        let ghost head = out@;
        for k in 0..nav.items.len()
            invariant
                out@ == head + nav_lines(k as int),
        {
            out.push(SidebarLine::NavItem { item: k });
        }
        out.push(SidebarLine::GroupsRow);
        let ghost start = out@;
        let gs = &nav.groups;
        for g in 0..gs.len()
            invariant
                gs == &nav.groups,
                out@ == start + group_lines(gs@, nav.selected, g as int),
        {
            let group = &gs[g];
            out.push(SidebarLine::GroupHeader { group: g, open: group.open });
            let ghost mid = out@;
            if group.open {
                for m in 0..group.sessions.len()
                    invariant
                        group == &gs@[g as int],
                        out@ == mid + session_lines(gs@, nav.selected, g as int, m as int),
                {
                    let selected = is_selected_id(&nav.selected, &group.sessions[m].id);
                    out.push(SidebarLine::Session { group: g, session: m, selected });
                }
            }
            assert(out@ == start + group_lines(gs@, nav.selected, g + 1));
        }
        out.push(SidebarLine::Footer);
        out
    }

    /// What the sidebar draws: the rail's cells while collapsed, else its
    /// lines.
    pub fn view(&self) -> (v: SidebarView)
        ensures
            match v {
                SidebarView::Rail(cells) => self.collapsed && cells@ == self.nav.items@.map_values(
                    |i: crate::nav::rail::SidebarNavItem| crate::nav::rail::nav_cell(i),
                ) + seq![RailItem::Separator] + crate::nav::rail::group_cells(
                    self.nav.groups@,
                    self.nav.selected,
                    self.nav.groups@.len() as int,
                ),
                SidebarView::Lines(lines) => !self.collapsed && lines@ == sidebar_lines(self.nav),
            },
    {
        if self.collapsed {
            SidebarView::Rail(self.nav.rail_items())
        } else {
            SidebarView::Lines(self.lines())
        }
    }
}

} // verus!
