//! View-model types the sidebar rows render. These are what an app derives
//! from its own state; the rows never read anything else.
use vstd::prelude::*;

verus! {

/// The state an agent session is in; it colours the session's dot.
#[derive(Debug, Clone, Copy, PartialEq, Eq, Structural)]
pub enum AgentState {
    /// Nothing running.
    Idle,
    /// The agent is working.
    Running,
    /// The agent finished.
    Done,
}

/// An item on the meta line.
#[derive(Debug, PartialEq)]
pub enum MetaItem {
    /// Plain ink-3 text (`PR #2491 open`).
    Text(String),
    /// A mono tag.
    Tag(String),
    /// Danger-coloured text (`2 tests failed`).
    Danger(String),
    /// Warning-coloured text (`awaiting permission`).
    Warning(String),
}

/// An explicit second line for a session row, distinct from the `meta`
/// preview tags. Whatever the caller passes, the row keeps its two-line
/// height: with nothing to show the line renders as empty space.
#[derive(Debug, PartialEq)]
pub enum Byline {
    /// Muted placeholder text (`Working…`, `No reply yet`).
    Placeholder(String),
    /// One line of preview text.
    Preview(String),
    /// Last ask plus last result, side by side on the row's one second line.
    TwoLines {
        /// What was last asked.
        ask: String,
        /// What came back.
        result: String,
    },
}

/// How the activity line is drawn.
#[derive(Debug, Clone, Copy, PartialEq, Eq, Structural)]
pub enum ActivityKind {
    /// Spinner + ink-2 text: the agent is working.
    Working,
    /// Shield glyph + warning text: waiting for the person.
    Waiting,
    /// Danger text: something failed.
    Failed,
    /// ink-2 text with no glyph.
    Plain,
}

/// The live third line of a row.
#[derive(Debug, PartialEq)]
pub struct Activity {
    /// How it is drawn.
    pub kind: ActivityKind,
    /// The sentence, truncated.
    pub text: String,
}

/// The status verb: which sentence the status line draws, and in which
/// state colour. The caller supplies the variable words through
/// [`RowStatus::detail`]; the library owns the vocabulary, colour and weight.
#[derive(Debug, Clone, Copy, PartialEq, Eq, Structural)]
pub enum RowStatusKind {
    /// `Working · {detail}` in accent-ink.
    Working,
    /// `Needs approval` in warning.
    NeedsApproval,
    /// `Asked: "{detail}"` in warning; bare `Asked` when detail is empty.
    Asked,
    /// `Settled · {detail}` in muted.
    Settled,
    /// `Failed · {detail}` in danger; bare `Failed` when detail is empty.
    Failed,
    /// `No reply yet · {detail}` in muted; bare `No reply yet` when empty.
    NoReply,
}

/// The status verb line: `kind` picks the vocabulary, colour and weight;
/// `detail` carries the variable words.
#[derive(Debug, PartialEq)]
pub struct RowStatus {
    /// Which sentence, colour and weight.
    pub kind: RowStatusKind,
    /// The variable words; blank renders the bare verb.
    pub detail: String,
}

/// One session / worktree as the sidebar shows it.
#[derive(Debug, PartialEq)]
pub struct SessionSummary {
    /// Stable id, naming the session when it is selected or acted on.
    pub id: String,
    /// Name (worktree or task title).
    pub name: String,
    /// Colours the dot.
    pub state: AgentState,
    /// Live (running / waiting): the dot pulses.
    pub pulse: bool,
    /// Elapsed / relative time at the right: `49m`, `3h`, `now`.
    pub elapsed: String,
    /// Repository tag.
    pub repo: Option<String>,
    /// Branch tag.
    pub branch: Option<String>,
    /// Provider marks after the tags, by provider name.
    pub providers: Vec<String>,
    /// Extra items on the meta line, after the tags.
    pub meta: Vec<MetaItem>,
    /// An explicit second line; when set it wins the row's second-line slot.
    pub byline: Option<Byline>,
    /// The optional third line.
    pub activity: Option<Activity>,
    /// The approval command or pending question: wins the context line.
    pub attention: Option<String>,
    /// The status verb line.
    pub status: Option<RowStatus>,
    /// Unread: the accent bar at the left edge.
    pub unread: bool,
    /// Pinned: date groupings lift the row into the leading `Pinned` group.
    pub pinned: bool,
    /// Fan-out children, nested under the row.
    pub children: Vec<SessionSummary>,
}

impl Clone for MetaItem {
    fn clone(&self) -> (c: Self)
        ensures
            c == *self,
    {
        match self {
            MetaItem::Text(t) => MetaItem::Text(t.clone()),
            MetaItem::Tag(t) => MetaItem::Tag(t.clone()),
            MetaItem::Danger(t) => MetaItem::Danger(t.clone()),
            MetaItem::Warning(t) => MetaItem::Warning(t.clone()),
        }
    }
}

impl Clone for Byline {
    fn clone(&self) -> (c: Self)
        ensures
            c == *self,
    {
        match self {
            Byline::Placeholder(t) => Byline::Placeholder(t.clone()),
            Byline::Preview(t) => Byline::Preview(t.clone()),
            Byline::TwoLines { ask, result } => Byline::TwoLines { ask: ask.clone(), result: result.clone() },
        }
    }
}

impl Clone for Activity {
    fn clone(&self) -> (c: Self)
        ensures
            c == *self,
    {
        Activity { kind: self.kind, text: self.text.clone() }
    }
}

impl Clone for RowStatus {
    fn clone(&self) -> (c: Self)
        ensures
            c == *self,
    {
        RowStatus { kind: self.kind, detail: self.detail.clone() }
    }
}

/// A copy of every string in `v`, in order.
pub fn copy_strings(v: &Vec<String>) -> (c: Vec<String>)
    ensures
        c@ == v@,
{
    let mut c: Vec<String> = Vec::new();
    for i in 0..v.len()
        invariant
            c@ == v@.take(i as int),
    {
        c.push(v[i].clone());
        assert(v@.take(i + 1) == v@.take(i as int).push(v@[i as int]));
    }
    assert(v@.take(v@.len() as int) == v@);
    c
}

/// A copy of every meta item in `v`, in order.
pub fn copy_meta(v: &Vec<MetaItem>) -> (c: Vec<MetaItem>)
    ensures
        c@ == v@,
{
    let mut c: Vec<MetaItem> = Vec::new();
    for i in 0..v.len()
        invariant
            c@ == v@.take(i as int),
    {
        c.push(v[i].clone());
        assert(v@.take(i + 1) == v@.take(i as int).push(v@[i as int]));
    }
    assert(v@.take(v@.len() as int) == v@);
    c
}

/// Whether two summaries agree in every field, their lists item by item and
/// their children recursively so.
pub open spec fn same_summary(a: SessionSummary, b: SessionSummary) -> bool
    decreases a,
{
    &&& a.id == b.id
    &&& a.name == b.name
    &&& a.state == b.state
    &&& a.pulse == b.pulse
    &&& a.elapsed == b.elapsed
    &&& a.repo == b.repo
    &&& a.branch == b.branch
    &&& a.providers@ == b.providers@
    &&& a.meta@ == b.meta@
    &&& a.byline == b.byline
    &&& a.activity == b.activity
    &&& a.attention == b.attention
    &&& a.status == b.status
    &&& a.unread == b.unread
    &&& a.pinned == b.pinned
    &&& a.children@.len() == b.children@.len()
    &&& forall|i: int|
        0 <= i < a.children@.len() ==> same_summary(#[trigger] a.children@[i], b.children@[i])
}

impl SessionSummary {
    /// A deep copy: every field, and every child's copy in order.
    fn copy(&self) -> (c: Self)
        ensures
            same_summary(c, *self),
        decreases self,
    {
        let mut children: Vec<SessionSummary> = Vec::new();
        let mut i: usize = 0;
        while i < self.children.len()
            invariant
                i <= self.children@.len(),
                children@.len() == i,
                forall|k: int| 0 <= k < i ==> same_summary(#[trigger] children@[k], self.children@[k]),
            decreases self.children@.len() - i,
        {
            proof {
                assert(decreases_to!(self => self.children));
                assert(decreases_to!(self.children => self.children@));
                assert(decreases_to!(self.children@ => self.children@[i as int]));
            }
            children.push(self.children[i].copy());
            i = i + 1;
        }
        SessionSummary {
            id: self.id.clone(),
            name: self.name.clone(),
            state: self.state,
            pulse: self.pulse,
            elapsed: self.elapsed.clone(),
            repo: self.repo.clone(),
            branch: self.branch.clone(),
            providers: copy_strings(&self.providers),
            meta: copy_meta(&self.meta),
            byline: self.byline.clone(),
            activity: self.activity.clone(),
            attention: self.attention.clone(),
            status: self.status.clone(),
            unread: self.unread,
            pinned: self.pinned,
            children,
        }
    }
}

impl Clone for SessionSummary {
    fn clone(&self) -> (c: Self)
        ensures
            same_summary(c, *self),
    {
        self.copy()
    }
}

impl RowStatus {
    /// A status of `kind` with `detail`'s variable words.
    pub fn new(kind: RowStatusKind, detail: &str) -> (r: Self)
        ensures
            r.kind == kind,
            r.detail@ == detail@,
    {
        RowStatus { kind, detail: detail.to_string() }
    }
}

impl SessionSummary {
    /// A minimal summary; fill the rest with the builder methods.
    pub fn new(id: &str, name: &str, state: AgentState, elapsed: &str) -> (s: Self)
        ensures
            s.id@ == id@,
            s.name@ == name@,
            s.state == state,
            s.elapsed@ == elapsed@,
            !s.pulse,
            s.repo is None,
            s.branch is None,
            s.providers@.len() == 0,
            s.meta@.len() == 0,
            s.byline is None,
            s.activity is None,
            s.attention is None,
            s.status is None,
            !s.unread,
            !s.pinned,
            s.children@.len() == 0,
    {
        SessionSummary {
            id: id.to_string(),
            name: name.to_string(),
            state,
            pulse: false,
            elapsed: elapsed.to_string(),
            repo: None,
            branch: None,
            providers: Vec::new(),
            meta: Vec::new(),
            byline: None,
            activity: None,
            attention: None,
            status: None,
            unread: false,
            pinned: false,
            children: Vec::new(),
        }
    }

    /// Pulses the dot.
    pub fn pulse(self) -> (s: Self)
        ensures
            s == (SessionSummary { pulse: true, ..self }),
    {
        SessionSummary { pulse: true, ..self }
    }

    /// Sets the repo tag.
    pub fn repo(self, repo: &str) -> (s: Self)
        ensures
            s == (SessionSummary { repo: s.repo, ..self }),
            s.repo matches Some(r) && r@ == repo@,
    {
        SessionSummary { repo: Some(repo.to_string()), ..self }
    }

    /// Sets the branch tag.
    pub fn branch(self, branch: &str) -> (s: Self)
        ensures
            s == (SessionSummary { branch: s.branch, ..self }),
            s.branch matches Some(b) && b@ == branch@,
    {
        SessionSummary { branch: Some(branch.to_string()), ..self }
    }

    /// Adds a provider mark.
    pub fn provider(self, provider: &str) -> (s: Self)
        ensures
            s == (SessionSummary { providers: s.providers, ..self }),
            s.providers@.len() == self.providers@.len() + 1,
            s.providers@.take(self.providers@.len() as int) == self.providers@,
            s.providers@.last()@ == provider@,
    {
        let mut providers = self.providers;
        providers.push(provider.to_string());
        SessionSummary { providers, ..self }
    }

    /// Adds a meta item.
    pub fn meta(self, item: MetaItem) -> (s: Self)
        ensures
            s == (SessionSummary { meta: s.meta, ..self }),
            s.meta@ == self.meta@.push(item),
    {
        let mut meta = self.meta;
        meta.push(item);
        SessionSummary { meta, ..self }
    }

    /// Sets the second line to a muted placeholder (`Working…`).
    pub fn placeholder(self, text: &str) -> (s: Self)
        ensures
            s == (SessionSummary { byline: s.byline, ..self }),
            s.byline matches Some(Byline::Placeholder(t)) && t@ == text@,
    {
        SessionSummary { byline: Some(Byline::Placeholder(text.to_string())), ..self }
    }

    /// Sets the second line to one line of preview text.
    pub fn preview(self, text: &str) -> (s: Self)
        ensures
            s == (SessionSummary { byline: s.byline, ..self }),
            s.byline matches Some(Byline::Preview(t)) && t@ == text@,
    {
        SessionSummary { byline: Some(Byline::Preview(text.to_string())), ..self }
    }

    /// Sets the second line to the two-part byline: what was last asked and
    /// what came back.
    pub fn byline(self, ask: &str, result: &str) -> (s: Self)
        ensures
            s == (SessionSummary { byline: s.byline, ..self }),
            s.byline matches Some(Byline::TwoLines { ask: a, result: r }) && a@ == ask@ && r@
                == result@,
    {
        SessionSummary {
            byline: Some(Byline::TwoLines { ask: ask.to_string(), result: result.to_string() }),
            ..self
        }
    }

    /// Sets the activity line.
    pub fn activity(self, kind: ActivityKind, text: &str) -> (s: Self)
        ensures
            s == (SessionSummary { activity: s.activity, ..self }),
            s.activity matches Some(a) && a.kind == kind && a.text@ == text@,
    {
        SessionSummary { activity: Some(Activity { kind, text: text.to_string() }), ..self }
    }

    /// Sets the context override: the approval command or pending question.
    pub fn attention(self, text: &str) -> (s: Self)
        ensures
            s == (SessionSummary { attention: s.attention, ..self }),
            s.attention matches Some(t) && t@ == text@,
    {
        SessionSummary { attention: Some(text.to_string()), ..self }
    }

    /// Sets the status verb line.
    pub fn status(self, kind: RowStatusKind, detail: &str) -> (s: Self)
        ensures
            s == (SessionSummary { status: s.status, ..self }),
            s.status matches Some(st) && st.kind == kind && st.detail@ == detail@,
    {
        SessionSummary { status: Some(RowStatus::new(kind, detail)), ..self }
    }

    /// Marks unread.
    pub fn unread(self) -> (s: Self)
        ensures
            s == (SessionSummary { unread: true, ..self }),
    {
        SessionSummary { unread: true, ..self }
    }

    /// Pins the session: date groupings render it in the leading `Pinned`
    /// group, excluded from the date buckets.
    pub fn pinned(self) -> (s: Self)
        ensures
            s == (SessionSummary { pinned: true, ..self }),
    {
        SessionSummary { pinned: true, ..self }
    }

    /// Adds a child session.
    pub fn child(self, child: SessionSummary) -> (s: Self)
        ensures
            s == (SessionSummary { children: s.children, ..self }),
            s.children@ == self.children@.push(child),
    {
        let mut children = self.children;
        children.push(child);
        SessionSummary { children, ..self }
    }
}

} // verus!
