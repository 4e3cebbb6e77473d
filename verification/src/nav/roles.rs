//! The assistant's bordered role sections: a role header and, while the
//! role is open, its projects with their sessions under them and its
//! knowledge sources.
use vstd::prelude::*;

use crate::text::same_text;

verus! {

/// What kind of work a session is, which fixes its glyph.
#[derive(Debug, Clone, Copy, PartialEq, Eq, Structural)]
pub enum SessionKind {
    /// A conversation.
    Chat,
    /// A document being written.
    Document,
    /// A spreadsheet.
    Sheet,
}

impl SessionKind {
    /// The name of this kind's glyph in the sprite.
    pub fn icon(self) -> (name: &'static str)
        ensures
            name@ == match self {
                SessionKind::Chat => "sparkle"@,
                SessionKind::Document => "doc"@,
                SessionKind::Sheet => "sheet"@,
            },
    {
        match self {
            SessionKind::Chat => "sparkle",
            SessionKind::Document => "doc",
            SessionKind::Sheet => "sheet",
        }
    }
}

/// One session inside a project.
#[derive(Debug)]
pub struct RoleSession {
    /// Stable id, reported on selection and matched against the open session.
    pub id: String,
    /// The session's name.
    pub name: String,
    /// The kind of work, which picks the glyph.
    pub kind: SessionKind,
    /// Elapsed time (`now`, `2h`, `1d`).
    pub elapsed: String,
}

impl RoleSession {
    /// A session of `kind` last touched `elapsed` ago.
    pub fn new(id: &str, name: &str, kind: SessionKind, elapsed: &str) -> (s: Self)
        ensures
            s.id@ == id@,
            s.name@ == name@,
            s.kind == kind,
            s.elapsed@ == elapsed@,
    {
        RoleSession { id: id.to_string(), name: name.to_string(), kind, elapsed: elapsed.to_string() }
    }
}


/// One project inside a role, with the sessions listed under it.
#[derive(Debug)]
pub struct Project {
    /// Stable id, reported on selection.
    pub id: String,
    /// The project's name.
    pub name: String,
    /// How many sessions the project holds (shown at the right).
    pub count: usize,
    /// The sessions listed under the project; may be empty.
    pub sessions: Vec<RoleSession>,
}

impl Project {
    /// A project with `count` sessions and none listed.
    pub fn new(id: &str, name: &str, count: usize) -> (p: Self)
        ensures
            p.id@ == id@,
            p.name@ == name@,
            p.count == count,
            p.sessions@.len() == 0,
    {
        Project { id: id.to_string(), name: name.to_string(), count, sessions: Vec::new() }
    }

    /// Adds a session row under the project.
    pub fn session(self, session: RoleSession) -> (p: Self)
        ensures
            p == (Project { sessions: p.sessions, ..self }),
            p.sessions@ == self.sessions@.push(session),
    {
        let mut p = self;
        p.sessions.push(session);
        p
    }
}


/// One role of the assistant: the person's hat, its projects and the
/// knowledge sources the assistant is grounded in while wearing it.
#[derive(Debug)]
pub struct Role {
    /// Stable id, reported when the section is toggled or a source added.
    pub id: String,
    /// The role's name (`Director, Education`).
    pub name: String,
    /// The name of the muted glyph in front of the role's name.
    pub icon: String,
    /// Whether the section is expanded.
    pub open: bool,
    /// The count shown on a closed role.
    pub count: usize,
    /// The projects of the role.
    pub projects: Vec<Project>,
    /// The knowledge sources attached to the role.
    pub knowledge: Vec<String>,
}

impl Role {
    /// A closed role with `count` sessions.
    pub fn new(id: &str, name: &str, glyph: &str, count: usize) -> (r: Self)
        ensures
            r.id@ == id@,
            r.name@ == name@,
            r.icon@ == glyph@,
            !r.open,
            r.count == count,
            r.projects@.len() == 0,
            r.knowledge@.len() == 0,
    {
        Role {
            id: id.to_string(),
            name: name.to_string(),
            icon: glyph.to_string(),
            open: false,
            count,
            projects: Vec::new(),
            knowledge: Vec::new(),
        }
    }

    /// Expands the section.
    pub fn open(self) -> (r: Self)
        ensures
            r == (Role { open: true, ..self }),
    {
        Role { open: true, ..self }
    }

    /// Adds a project.
    pub fn project(self, project: Project) -> (r: Self)
        ensures
            r == (Role { projects: r.projects, ..self }),
            r.projects@ == self.projects@.push(project),
    {
        let mut r = self;
        r.projects.push(project);
        r
    }

    /// Adds a knowledge source.
    pub fn knowledge(self, source: &str) -> (r: Self)
        ensures
            r == (Role { knowledge: r.knowledge, ..self }),
            r.knowledge@.len() == self.knowledge@.len() + 1,
            r.knowledge@.drop_last() == self.knowledge@,
            r.knowledge@.last()@ == source@,
    {
        let mut r = self;
        r.knowledge.push(source.to_string());
        assert(r.knowledge@.drop_last() == self.knowledge@);
        r
    }
}


/// Which group of an open role a caps label heads.
#[derive(Debug, Clone, Copy, PartialEq, Eq, Structural)]
pub enum RoleGroup {
    /// The role's projects.
    Projects,
    /// The role's knowledge sources.
    Knowledge,
}

/// One line of a role section, in drawing order.
#[derive(Debug, Clone, Copy, PartialEq, Eq, Structural)]
pub enum RoleLine {
    /// The role header; a closed role shows its count at the right.
    Header {
        /// Whether the role is open.
        open: bool,
        /// The count tag, shown only while the role is closed.
        tag: Option<usize>,
    },
    /// A caps group label with its mono count.
    GroupLabel {
        /// Which group it heads.
        group: RoleGroup,
        /// How many entries the group holds.
        count: usize,
    },
    /// A project row: an index into the role's projects.
    Project {
        /// The project's index.
        project: usize,
    },
    /// A session row under its project.
    Session {
        /// The project's index.
        project: usize,
        /// The session's index inside the project.
        session: usize,
        /// Whether it is the open session.
        active: bool,
    },
    /// The knowledge card with its chips and the `+ add` chip.
    Knowledge,
}

/// The session rows of project `p`, the first `m` of `ss`, each marked
/// active when its id is the open session's.
pub open spec fn session_lines(ss: Seq<RoleSession>, p: int, active: Option<Seq<char>>, m: int) -> Seq<RoleLine>
    decreases m,
{
    if m <= 0 {
        Seq::empty()
    } else {
        session_lines(ss, p, active, m - 1).push(
            RoleLine::Session { project: p as usize, session: (m - 1) as usize, active: active == Some(ss[m - 1].id@) },
        )
    }
}

/// The first `k` projects of `ps`, each followed by its sessions.
pub open spec fn project_lines(ps: Seq<Project>, active: Option<Seq<char>>, k: int) -> Seq<RoleLine>
    decreases k,
{
    if k <= 0 {
        Seq::empty()
    } else {
        project_lines(ps, active, k - 1).push(RoleLine::Project { project: (k - 1) as usize }) + session_lines(
            ps[k - 1].sessions@,
            k - 1,
            active,
            ps[k - 1].sessions@.len() as int,
        )
    }
}

/// The lines of a role section: the header, and while the role is open the
/// Projects group (when there are projects) with every project followed by
/// its sessions, then the Knowledge group (when there are sources).
pub open spec fn role_lines(role: Role, active: Option<Seq<char>>) -> Seq<RoleLine> {
    let header = RoleLine::Header { open: role.open, tag: if role.open { None } else { Some(role.count) } };
    if !role.open {
        seq![header]
    } else {
        let projects = if role.projects@.len() == 0 {
            Seq::empty()
        } else {
            seq![RoleLine::GroupLabel { group: RoleGroup::Projects, count: role.projects@.len() as usize }]
                + project_lines(role.projects@, active, role.projects@.len() as int)
        };
        let knowledge = if role.knowledge@.len() == 0 {
            Seq::empty()
        } else {
            seq![
                RoleLine::GroupLabel { group: RoleGroup::Knowledge, count: role.knowledge@.len() as usize },
                RoleLine::Knowledge,
            ]
        };
        seq![header] + projects + knowledge
    }
}

proof fn lemma_session_lines_are_sessions(ss: Seq<RoleSession>, p: int, active: Option<Seq<char>>, m: int)
    ensures
        forall|i: int| 0 <= i < session_lines(ss, p, active, m).len() ==> (#[trigger] session_lines(ss, p, active, m)[i]) is Session,
    decreases m,
{
    if m > 0 {
        lemma_session_lines_are_sessions(ss, p, active, m - 1);
        let a = session_lines(ss, p, active, m - 1);
        assert forall|i: int| 0 <= i < session_lines(ss, p, active, m).len() implies (#[trigger] session_lines(ss, p, active, m)[i]) is Session by {
            if i < a.len() {
                assert(session_lines(ss, p, active, m)[i] == a[i]);
            }
        }
    }
}

proof fn lemma_project_lines_hold_no_label(ps: Seq<Project>, active: Option<Seq<char>>, k: int)
    ensures
        forall|i: int| 0 <= i < project_lines(ps, active, k).len() ==> !((#[trigger] project_lines(ps, active, k)[i]) is GroupLabel),
    decreases k,
{
    if k > 0 {
        lemma_project_lines_hold_no_label(ps, active, k - 1);
        let ss = ps[k - 1].sessions@;
        lemma_session_lines_are_sessions(ss, k - 1, active, ss.len() as int);
        let a = project_lines(ps, active, k - 1).push(RoleLine::Project { project: (k - 1) as usize });
        let b = session_lines(ss, k - 1, active, ss.len() as int);
        let all = project_lines(ps, active, k);
        assert(all == a + b);
        assert forall|i: int| 0 <= i < all.len() implies !((#[trigger] all[i]) is GroupLabel) by {
            if i < a.len() - 1 {
                assert(all[i] == project_lines(ps, active, k - 1)[i]);
            } else if i >= a.len() {
                assert(all[i] == b[i - a.len()]);
            }
        }
    }
}

/// Whether `line` is a session row of a listed session of `ps`, marked
/// active exactly when its id is the open session's.
pub open spec fn is_listed_session(ps: Seq<Project>, active: Option<Seq<char>>, line: RoleLine) -> bool {
    line matches RoleLine::Session { project, session, active: on } && project < ps.len() && session
        < ps[project as int].sessions@.len() && on == (active == Some(
        ps[project as int].sessions@[session as int].id@,
    ))
}

proof fn lemma_session_lines_listed(ps: Seq<Project>, p: int, active: Option<Seq<char>>, m: int)
    requires
        0 <= p < ps.len() <= usize::MAX,
        0 <= m <= ps[p].sessions@.len(),
    ensures
        forall|i: int|
            0 <= i < session_lines(ps[p].sessions@, p, active, m).len() ==> {
                let line = #[trigger] session_lines(ps[p].sessions@, p, active, m)[i];
                is_listed_session(ps, active, line) && line->Session_project == p
            },
    decreases m,
{
    assert(ps[p].sessions@.len() == ps[p].sessions.len());
    if m > 0 {
        lemma_session_lines_listed(ps, p, active, m - 1);
        let a = session_lines(ps[p].sessions@, p, active, m - 1);
        let all = session_lines(ps[p].sessions@, p, active, m);
        assert forall|i: int| 0 <= i < all.len() implies {
            let line = #[trigger] all[i];
            is_listed_session(ps, active, line) && line->Session_project == p
        } by {
            if i < a.len() {
                assert(all[i] == a[i]);
            }
        }
    }
}

proof fn lemma_project_lines_listed(ps: Seq<Project>, active: Option<Seq<char>>, k: int)
    requires
        0 <= k <= ps.len() <= usize::MAX,
    ensures
        forall|i: int|
            0 <= i < project_lines(ps, active, k).len() ==> {
                let line = #[trigger] project_lines(ps, active, k)[i];
                ||| (line is Project && line->Project_project < k)
                ||| is_listed_session(ps, active, line)
            },
    decreases k,
{
    if k > 0 {
        lemma_project_lines_listed(ps, active, k - 1);
        let ss = ps[k - 1].sessions@;
        lemma_session_lines_listed(ps, k - 1, active, ss.len() as int);
        let a = project_lines(ps, active, k - 1).push(RoleLine::Project { project: (k - 1) as usize });
        let b = session_lines(ss, k - 1, active, ss.len() as int);
        let all = project_lines(ps, active, k);
        assert(all == a + b);
        assert forall|i: int| 0 <= i < all.len() implies {
            let line = #[trigger] all[i];
            ||| (line is Project && line->Project_project < k)
            ||| is_listed_session(ps, active, line)
        } by {
            if i < a.len() - 1 {
                assert(all[i] == project_lines(ps, active, k - 1)[i]);
            } else if i >= a.len() {
                assert(all[i] == b[i - a.len()]);
            }
        }
    }
}

/// A role section's shape: the header leads, open or closed as the role is,
/// with the role's count at the right only while closed, and a closed role
/// draws nothing else. Every session row of an open role is one of its
/// listed sessions, highlighted exactly when it is the open session.
pub proof fn lemma_role_lines_shape(role: Role, active: Option<Seq<char>>)
    ensures
        role_lines(role, active).len() > 0,
        role_lines(role, active)[0] is Header,
        role_lines(role, active)[0]->Header_open == role.open,
        role_lines(role, active)[0]->Header_tag == (if role.open { None } else { Some(role.count) }),
        !role.open ==> role_lines(role, active).len() == 1,
        forall|i: int|
            0 <= i < role_lines(role, active).len() && (#[trigger] role_lines(role, active)[i]) is Session
                ==> is_listed_session(role.projects@, active, role_lines(role, active)[i]),
{
    assert(role.projects@.len() == role.projects.len());
    let lines = role_lines(role, active);
    if role.open {
        let n = role.projects@.len() as int;
        lemma_project_lines_listed(role.projects@, active, n);
        let header = RoleLine::Header { open: true, tag: None };
        let pl = project_lines(role.projects@, active, n);
        let projects = if n == 0 {
            Seq::<RoleLine>::empty()
        } else {
            seq![RoleLine::GroupLabel { group: RoleGroup::Projects, count: n as usize }] + pl
        };
        let knowledge = if role.knowledge@.len() == 0 {
            Seq::<RoleLine>::empty()
        } else {
            seq![
                RoleLine::GroupLabel { group: RoleGroup::Knowledge, count: role.knowledge@.len() as usize },
                RoleLine::Knowledge,
            ]
        };
        assert(lines == seq![header] + projects + knowledge);
        assert(lines[0] == header);
        assert forall|i: int| 0 <= i < lines.len() && (#[trigger] lines[i]) is Session implies is_listed_session(
            role.projects@,
            active,
            lines[i],
        ) by {
            if 1 <= i < 1 + projects.len() {
                assert(lines[i] == projects[i - 1]);
                if i > 1 {
                    assert(projects[i - 1] == pl[i - 2]);
                }
            } else if i >= 1 + projects.len() {
                assert(lines[i] == knowledge[i - 1 - projects.len()]);
            }
        }
    }
}

/// A group label counts what it heads: the Projects label the role's
/// projects, the Knowledge label its knowledge sources. Labels show only
/// while the role is open, and an open role labels each group that has
/// entries.
pub proof fn lemma_group_labels_count_their_entries(role: Role, active: Option<Seq<char>>)
    ensures
        forall|i: int|
            0 <= i < role_lines(role, active).len() && (#[trigger] role_lines(role, active)[i]) is GroupLabel ==> {
                let line = role_lines(role, active)[i];
                &&& role.open
                &&& line->GroupLabel_group == RoleGroup::Projects ==> line->GroupLabel_count == role.projects@.len()
                &&& line->GroupLabel_group == RoleGroup::Knowledge ==> line->GroupLabel_count == role.knowledge@.len()
                &&& line->GroupLabel_count > 0
            },
        role.open && role.projects@.len() > 0 ==> role_lines(role, active).contains(
            RoleLine::GroupLabel { group: RoleGroup::Projects, count: role.projects@.len() as usize },
        ),
        role.open && role.knowledge@.len() > 0 ==> role_lines(role, active).contains(
            RoleLine::GroupLabel { group: RoleGroup::Knowledge, count: role.knowledge@.len() as usize },
        ),
{
    assert(role.projects@.len() == role.projects.len());
    assert(role.knowledge@.len() == role.knowledge.len());
    let lines = role_lines(role, active);
    if role.open {
        let n = role.projects@.len() as int;
        lemma_project_lines_hold_no_label(role.projects@, active, n);
        let header = RoleLine::Header { open: true, tag: None };
        let pl = project_lines(role.projects@, active, n);
        let projects = if n == 0 {
            Seq::<RoleLine>::empty()
        } else {
            seq![RoleLine::GroupLabel { group: RoleGroup::Projects, count: n as usize }] + pl
        };
        let knowledge = if role.knowledge@.len() == 0 {
            Seq::<RoleLine>::empty()
        } else {
            seq![
                RoleLine::GroupLabel { group: RoleGroup::Knowledge, count: role.knowledge@.len() as usize },
                RoleLine::Knowledge,
            ]
        };
        assert(lines == seq![header] + projects + knowledge);
        assert forall|i: int|
            0 <= i < lines.len() && (#[trigger] lines[i]) is GroupLabel implies {
                let line = lines[i];
                &&& role.open
                &&& line->GroupLabel_group == RoleGroup::Projects ==> line->GroupLabel_count == role.projects@.len()
                &&& line->GroupLabel_group == RoleGroup::Knowledge ==> line->GroupLabel_count == role.knowledge@.len()
                &&& line->GroupLabel_count > 0
            } by {
            if 1 <= i < 1 + projects.len() {
                assert(lines[i] == projects[i - 1]);
                if i > 1 {
                    assert(projects[i - 1] == pl[i - 2]);
                }
            } else if i >= 1 + projects.len() {
                assert(lines[i] == knowledge[i - 1 - projects.len()]);
            }
        }
        if n > 0 {
            assert(lines[1] == RoleLine::GroupLabel { group: RoleGroup::Projects, count: n as usize });
        }
        if role.knowledge@.len() > 0 {
            assert(lines[1 + projects.len() as int] == RoleLine::GroupLabel {
                group: RoleGroup::Knowledge,
                count: role.knowledge@.len() as usize,
            });
        }
    }
}

/// A role section: the role and which session is open.
#[derive(Debug)]
pub struct RoleSection {
    /// Stable identity of the section.
    pub id: String,
    /// The role drawn.
    pub role: Role,
    /// The id of the open session, highlighted where it is listed.
    pub active_session: Option<String>,
}

/// A role section for `role`, with no session open.
pub fn role_section(id: &str, role: Role) -> (s: RoleSection)
    ensures
        s.id@ == id@,
        s.role == role,
        s.active_session is None,
{
    RoleSection { id: id.to_string(), role, active_session: None }
}

/// The view of an optional id.
pub open spec fn id_view(id: Option<String>) -> Option<Seq<char>> {
    match id {
        Some(s) => Some(s@),
        None => None,
    }
}

fn push_sessions(
    lines: &mut Vec<RoleLine>,
    ss: &Vec<RoleSession>,
    p: usize,
    active: &Option<String>,
)
    ensures
        final(lines)@ == old(lines)@ + session_lines(ss@, p as int, id_view(*active), ss@.len() as int),
{
    let ghost start = old(lines)@;
    for s in 0..ss.len()
        invariant
            lines@ == start + session_lines(ss@, p as int, id_view(*active), s as int),
    {
        let on = match active {
            Some(a) => same_text(a.as_str(), ss[s].id.as_str()),
            None => false,
        };
        lines.push(RoleLine::Session { project: p, session: s, active: on });
        assert(session_lines(ss@, p as int, id_view(*active), s + 1) == session_lines(
            ss@,
            p as int,
            id_view(*active),
            s as int,
        ).push(RoleLine::Session { project: p, session: s, active: on }));
    }
}

impl RoleSection {
    /// Marks the session with `id` as the open one.
    pub fn active_session(self, id: Option<&str>) -> (s: Self)
        ensures
            s == (RoleSection { active_session: s.active_session, ..self }),
            match (s.active_session, id) {
                (Some(a), Some(b)) => a@ == b@,
                (None, None) => true,
                _ => false,
            },
    {
        let active = match id {
            Some(a) => Some(a.to_string()),
            None => None,
        };
        RoleSection { active_session: active, ..self }
    }

    /// The section's lines in drawing order.
    pub fn lines(&self) -> (out: Vec<RoleLine>)
        ensures
            out@ == role_lines(self.role, id_view(self.active_session)),
    {
        let role = &self.role;
        let ghost active = id_view(self.active_session);
        let mut out: Vec<RoleLine> = Vec::new();
        if !role.open {
            out.push(RoleLine::Header { open: false, tag: Some(role.count) });
            assert(out@ == role_lines(*role, active));
            return out;
        }
        out.push(RoleLine::Header { open: true, tag: None });
        let ghost head = out@;
        let n = role.projects.len();
        if n > 0 {
            out.push(RoleLine::GroupLabel { group: RoleGroup::Projects, count: n });
            let ghost start = out@;
            for k in 0..n
                invariant
                    n == role.projects@.len(),
                    out@ == start + project_lines(role.projects@, active, k as int),
                    active == id_view(self.active_session),
            {
                let ghost before = out@;
                out.push(RoleLine::Project { project: k });
                push_sessions(&mut out, &role.projects[k].sessions, k, &self.active_session);
                assert(out@ == start + project_lines(role.projects@, active, k + 1));
            }
        }
        let ghost mid = out@;
        let m = role.knowledge.len();
        if m > 0 {
            out.push(RoleLine::GroupLabel { group: RoleGroup::Knowledge, count: m });
            out.push(RoleLine::Knowledge);
        }
        assert(out@ == role_lines(*role, active));
        out
    }
}

} // verus!
