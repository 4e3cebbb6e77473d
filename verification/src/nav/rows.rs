//! The decisions behind a session row: which second line it draws, what the
//! context and status lines say, which ink each takes, and what its hover
//! tray carries.
use vstd::prelude::*;

use crate::ink::{InkRole, PaletteRole};
use crate::nav::types::{Activity, ActivityKind, Byline, MetaItem, RowStatus, RowStatusKind, SessionSummary};
use crate::text::{chars_of, extend_chars, extend_str, is_blank, string_from, trim, trimmed};

verus! {

broadcast use vstd::string::group_string_axioms;

/// The hover actions on a row.
#[derive(Debug, Clone, Copy, PartialEq, Eq, Structural)]
pub enum RowAction {
    /// Open the terminal.
    Terminal,
    /// Open the browser.
    Browser,
    /// Pin the session.
    Pin,
    /// Rename the session in place.
    Rename,
    /// Take the session out of the list.
    Hide,
    /// Archive the session (confirm first; the app owns the flow).
    Archive,
    /// More…
    More,
}

impl RowAction {
    /// The full tray, which is what a row draws when the caller names no
    /// subset.
    pub const ALL: [RowAction; 4] = [RowAction::Terminal, RowAction::Browser, RowAction::Pin, RowAction::More];

    /// The action's key in element ids and tooltips.
    pub fn name(self) -> (n: &'static str)
        ensures
            n@ == match self {
                RowAction::Terminal => "terminal"@,
                RowAction::Browser => "browser"@,
                RowAction::Pin => "pin"@,
                RowAction::Rename => "rename"@,
                RowAction::Hide => "hide"@,
                RowAction::Archive => "archive"@,
                RowAction::More => "more"@,
            },
    {
        match self {
            RowAction::Terminal => "terminal",
            RowAction::Browser => "browser",
            RowAction::Pin => "pin",
            RowAction::Rename => "rename",
            RowAction::Hide => "hide",
            RowAction::Archive => "archive",
            RowAction::More => "more",
        }
    }

    /// The name of the action's glyph in the sprite.
    pub fn glyph(self) -> (g: &'static str)
        ensures
            g@ == match self {
                RowAction::Terminal => "terminal"@,
                RowAction::Browser => "globe"@,
                RowAction::Pin => "pin"@,
                RowAction::Rename => "edit"@,
                RowAction::Hide => "eye"@,
                RowAction::Archive => "archive"@,
                RowAction::More => "dots"@,
            },
    {
        match self {
            RowAction::Terminal => "terminal",
            RowAction::Browser => "globe",
            RowAction::Pin => "pin",
            RowAction::Rename => "edit",
            RowAction::Hide => "eye",
            RowAction::Archive => "archive",
            RowAction::More => "dots",
        }
    }
}

/// What a tray button draws for `action` on a session that is `pinned`:
/// the pin flips to unpin (still reporting [`RowAction::Pin`]).
pub fn is_unpin(action: RowAction, pinned: bool) -> (b: bool)
    ensures
        b == (action == RowAction::Pin && pinned),
{
    action == RowAction::Pin && pinned
}

/// The tooltip a tray button carries, if any: the pin names what it will
/// do, `Pin` or `Unpin` once pinned; the other buttons carry none.
pub fn tray_tip(action: RowAction, pinned: bool) -> (tip: Option<&'static str>)
    ensures
        action != RowAction::Pin ==> tip is None,
        action == RowAction::Pin ==> (tip matches Some(t) && t@ == if pinned {
            "Unpin"@
        } else {
            "Pin"@
        }),
{
    if action != RowAction::Pin {
        None
    } else if pinned {
        Some("Unpin")
    } else {
        Some("Pin")
    }
}

/// Which second line the compact row draws for a summary: the row model
/// behind the uniform two-line height.
#[derive(Debug, Clone, Copy, PartialEq, Eq, Structural)]
pub enum SecondLineKind {
    /// Nothing to show: empty space keeping the two-line height.
    Empty,
    /// The legacy meta tags (and activity sentence), one truncating line.
    Meta,
    /// Muted placeholder text.
    Placeholder,
    /// One line of preview text.
    Preview,
    /// Last ask plus last result on the one second line.
    Byline,
}

/// Whether the legacy meta tags (or activity) give the row a second line:
/// the repo/branch tags, meta items, provider marks, the pin, or the
/// activity sentence.
pub open spec fn has_legacy_second_line(s: SessionSummary) -> bool {
    ||| s.repo is Some
    ||| s.branch is Some
    ||| s.meta@.len() > 0
    ||| s.providers@.len() > 0
    ||| s.pinned
    ||| s.activity is Some
}

/// Legacy second-line content other than `repo` / `branch`: meta items,
/// provider marks, the pin, or the activity sentence.
pub open spec fn has_non_project_legacy(s: SessionSummary) -> bool {
    ||| s.meta@.len() > 0
    ||| s.providers@.len() > 0
    ||| s.pinned
    ||| s.activity is Some
}

fn legacy_second_line(s: &SessionSummary) -> (b: bool)
    ensures
        b == has_legacy_second_line(*s),
{
    s.repo.is_some() || s.branch.is_some() || s.meta.len() > 0 || s.providers.len() > 0 || s.pinned
        || s.activity.is_some()
}

fn non_project_legacy(s: &SessionSummary) -> (b: bool)
    ensures
        b == has_non_project_legacy(*s),
{
    s.meta.len() > 0 || s.providers.len() > 0 || s.pinned || s.activity.is_some()
}

/// Which second line `summary` draws. An explicit [`Byline`] wins the slot;
/// otherwise the legacy meta tags show, or empty space when there are none.
pub fn second_line_kind(summary: &SessionSummary) -> (k: SecondLineKind)
    ensures
        k == match summary.byline {
            Some(Byline::Placeholder(_)) => SecondLineKind::Placeholder,
            Some(Byline::Preview(_)) => SecondLineKind::Preview,
            Some(Byline::TwoLines { .. }) => SecondLineKind::Byline,
            None => if has_legacy_second_line(*summary) {
                SecondLineKind::Meta
            } else {
                SecondLineKind::Empty
            },
        },
{
    match &summary.byline {
        Some(Byline::Placeholder(_)) => SecondLineKind::Placeholder,
        Some(Byline::Preview(_)) => SecondLineKind::Preview,
        Some(Byline::TwoLines { .. }) => SecondLineKind::Byline,
        None => if legacy_second_line(summary) {
            SecondLineKind::Meta
        } else {
            SecondLineKind::Empty
        },
    }
}

impl SecondLineKind {
    /// Slot height in lines: one in every state, so a row is always its
    /// title plus this line.
    pub fn lines(self) -> (n: u8)
        ensures
            n == 1,
    {
        1
    }

    /// Every state ellipsizes at the row's width…
    pub fn truncate(self) -> (b: bool)
        ensures
            b,
    {
        true
    }

    /// …and none wraps onto another line.
    pub fn wraps(self) -> (b: bool)
        ensures
            !b,
    {
        false
    }

    /// Ink for the slot's plain text: the placeholder sits a step dimmer
    /// (ink-4); everything else reads in the usual second-line ink-3.
    pub fn ink(self) -> (i: InkRole)
        ensures
            i == if self == SecondLineKind::Placeholder {
                InkRole::Ink4
            } else {
                InkRole::Ink3
            },
    {
        match self {
            SecondLineKind::Placeholder => InkRole::Ink4,
            _ => InkRole::Ink3,
        }
    }
}

/// The context line's kind. Priority: the attention words first, then the
/// [`Byline`] two-liner / preview / placeholder, then `project · branch`,
/// then the legacy meta tags, else empty space.
#[derive(Debug, Clone, Copy, PartialEq, Eq, Structural)]
pub enum ContextLineKind {
    /// The approval command or pending question, verbatim.
    Attention,
    /// Muted placeholder text.
    Placeholder,
    /// One line of preview text.
    Preview,
    /// Last ask plus last result on the one line.
    Byline,
    /// `project · branch` (or whichever half exists).
    Project,
    /// The legacy meta tags (and activity sentence), one truncating line.
    Meta,
    /// Nothing to show: empty space keeping the line height.
    Empty,
}

/// The context-line priority, as a value.
pub open spec fn spec_context_line_kind(s: SessionSummary) -> ContextLineKind {
    if s.attention is Some {
        ContextLineKind::Attention
    } else {
        match s.byline {
            Some(Byline::Placeholder(_)) => ContextLineKind::Placeholder,
            Some(Byline::Preview(_)) => ContextLineKind::Preview,
            Some(Byline::TwoLines { .. }) => ContextLineKind::Byline,
            None => if s.repo is Some || s.branch is Some {
                ContextLineKind::Project
            } else if has_non_project_legacy(s) {
                ContextLineKind::Meta
            } else {
                ContextLineKind::Empty
            },
        }
    }
}

/// Which context line `summary` draws. Presence wins over content: an
/// explicitly set [`Byline`] or `attention` keeps its kind even when empty.
pub fn context_line_kind(summary: &SessionSummary) -> (k: ContextLineKind)
    ensures
        k == spec_context_line_kind(*summary),
{
    if summary.attention.is_some() {
        return ContextLineKind::Attention;
    }
    match &summary.byline {
        Some(Byline::Placeholder(_)) => ContextLineKind::Placeholder,
        Some(Byline::Preview(_)) => ContextLineKind::Preview,
        Some(Byline::TwoLines { .. }) => ContextLineKind::Byline,
        None => if summary.repo.is_some() || summary.branch.is_some() {
            ContextLineKind::Project
        } else if non_project_legacy(summary) {
            ContextLineKind::Meta
        } else {
            ContextLineKind::Empty
        },
    }
}

impl ContextLineKind {
    /// Slot height in lines: one in every state.
    pub fn lines(self) -> (n: u8)
        ensures
            n == 1,
    {
        1
    }

    /// Every state ellipsizes at the row's width…
    pub fn truncate(self) -> (b: bool)
        ensures
            b,
    {
        true
    }

    /// …and none wraps onto another line.
    pub fn wraps(self) -> (b: bool)
        ensures
            !b,
    {
        false
    }
}

/// `project · branch`: whichever halves are set, joined with a middot.
pub open spec fn spec_project_branch(s: SessionSummary) -> Option<Seq<char>> {
    match (s.repo, s.branch) {
        (Some(r), Some(b)) => Some(r@ + " · "@ + b@),
        (Some(r), None) => Some(r@),
        (None, Some(b)) => Some(b@),
        (None, None) => None,
    }
}

/// `project · branch` for the context line: whichever half the caller set,
/// joined with a middot, or `None` when neither exists.
pub fn project_branch_text(summary: &SessionSummary) -> (t: Option<String>)
    ensures
        match spec_project_branch(*summary) {
            Some(v) => t matches Some(s) && s@ == v,
            None => t is None,
        },
{
    match (&summary.repo, &summary.branch) {
        (Some(repo), Some(branch)) => {
            let mut out = chars_of(repo.as_str());
            extend_str(&mut out, " · ");
            extend_str(&mut out, branch.as_str());
            Some(string_from(&out))
        },
        (Some(repo), None) => Some(repo.clone()),
        (None, Some(branch)) => Some(branch.clone()),
        (None, None) => None,
    }
}

/// The status sentence for `kind` with the (already trimmed) detail `d`.
pub open spec fn status_sentence(kind: RowStatusKind, d: Seq<char>) -> Seq<char> {
    match kind {
        RowStatusKind::Working => if d.len() == 0 {
            "Working"@
        } else {
            "Working · "@ + d
        },
        RowStatusKind::NeedsApproval => "Needs approval"@,
        RowStatusKind::Asked => if d.len() == 0 {
            "Asked"@
        } else {
            "Asked: \""@ + d + "\""@
        },
        RowStatusKind::Settled => if d.len() == 0 {
            "Settled"@
        } else {
            "Settled · "@ + d
        },
        RowStatusKind::Failed => if d.len() == 0 {
            "Failed"@
        } else {
            "Failed · "@ + d
        },
        RowStatusKind::NoReply => if d.len() == 0 {
            "No reply yet"@
        } else {
            "No reply yet · "@ + d
        },
    }
}

/// The status sentence leads with its verb, whatever the detail: the bare
/// verbs are `Working`, `Needs approval`, `Asked`, `Settled`, `Failed` and
/// `No reply yet`; a detail never replaces the verb but closes the sentence
/// (an asked question inside quotes), and an approval carries no detail.
pub proof fn lemma_status_sentence_leads_with_the_verb(kind: RowStatusKind, d: Seq<char>)
    ensures
        status_sentence(RowStatusKind::Working, Seq::empty()) == "Working"@,
        status_sentence(RowStatusKind::NeedsApproval, Seq::empty()) == "Needs approval"@,
        status_sentence(RowStatusKind::Asked, Seq::empty()) == "Asked"@,
        status_sentence(RowStatusKind::Settled, Seq::empty()) == "Settled"@,
        status_sentence(RowStatusKind::Failed, Seq::empty()) == "Failed"@,
        status_sentence(RowStatusKind::NoReply, Seq::empty()) == "No reply yet"@,
        status_sentence(kind, d).take(status_sentence(kind, Seq::empty()).len() as int) == status_sentence(
            kind,
            Seq::empty(),
        ),
        kind == RowStatusKind::NeedsApproval ==> status_sentence(kind, d) == status_sentence(kind, Seq::empty()),
        kind != RowStatusKind::NeedsApproval && kind != RowStatusKind::Asked && d.len() > 0 ==> status_sentence(
            kind,
            d,
        ).skip(status_sentence(kind, d).len() - d.len()) == d,
        kind == RowStatusKind::Asked && d.len() > 0 ==> status_sentence(kind, d).skip(
            status_sentence(kind, d).len() - d.len() - 1,
        ) == d + "\""@,
{
    reveal_strlit("Working");
    reveal_strlit("Working · ");
    reveal_strlit("Needs approval");
    reveal_strlit("Asked");
    reveal_strlit("Asked: \"");
    reveal_strlit("\"");
    reveal_strlit("Settled");
    reveal_strlit("Settled · ");
    reveal_strlit("Failed");
    reveal_strlit("Failed · ");
    reveal_strlit("No reply yet");
    reveal_strlit("No reply yet · ");
    let t = status_sentence(kind, d);
    let v = status_sentence(kind, Seq::empty());
    if d.len() > 0 {
        match kind {
            RowStatusKind::Working => {
                assert(t.take(v.len() as int) == v);
                assert(t.skip(t.len() - d.len()) == d);
            },
            RowStatusKind::Asked => {
                assert(t.take(v.len() as int) == v);
                assert(t.skip(t.len() - d.len() - 1) == d + "\""@);
            },
            RowStatusKind::Settled => {
                assert(t.take(v.len() as int) == v);
                assert(t.skip(t.len() - d.len()) == d);
            },
            RowStatusKind::Failed => {
                assert(t.take(v.len() as int) == v);
                assert(t.skip(t.len() - d.len()) == d);
            },
            RowStatusKind::NoReply => {
                assert(t.take(v.len() as int) == v);
                assert(t.skip(t.len() - d.len()) == d);
            },
            RowStatusKind::NeedsApproval => {
                assert(t.take(v.len() as int) == v);
            },
        }
    } else {
        assert(d == Seq::<char>::empty());
        assert(t.take(v.len() as int) == v);
    }
}

/// The ink a status sentence takes.
pub open spec fn status_ink(kind: RowStatusKind) -> InkRole {
    match kind {
        RowStatusKind::Working => InkRole::AccentInk,
        RowStatusKind::NeedsApproval | RowStatusKind::Asked => InkRole::Warning,
        RowStatusKind::Failed => InkRole::Danger,
        RowStatusKind::Settled | RowStatusKind::NoReply => InkRole::Ink3,
    }
}

fn prefixed(verb: &str, detail: &Vec<char>) -> (out: String)
    ensures
        out@ == verb@ + detail@,
{
    let mut out = chars_of(verb);
    extend_chars(&mut out, detail);
    string_from(&out)
}

fn quoted(verb: &str, detail: &Vec<char>, close: &str) -> (out: String)
    ensures
        out@ == verb@ + detail@ + close@,
{
    let mut out = chars_of(verb);
    extend_chars(&mut out, detail);
    extend_str(&mut out, close);
    string_from(&out)
}

impl RowStatus {
    /// The sentence the status line draws: the verb plus the trimmed
    /// `detail` where the state carries one. `Asked` wraps a non-empty
    /// detail in double quotes; the other suffixed states join with ` · `.
    pub fn text(&self) -> (t: String)
        ensures
            t@ == status_sentence(self.kind, trim(self.detail@)),
    {
        let detail = trimmed(self.detail.as_str());
        let bare = detail.len() == 0;
        match self.kind {
            RowStatusKind::Working => if bare {
                "Working".to_string()
            } else {
                prefixed("Working · ", &detail)
            },
            RowStatusKind::NeedsApproval => "Needs approval".to_string(),
            RowStatusKind::Asked => if bare {
                "Asked".to_string()
            } else {
                quoted("Asked: \"", &detail, "\"")
            },
            RowStatusKind::Settled => if bare {
                "Settled".to_string()
            } else {
                prefixed("Settled · ", &detail)
            },
            RowStatusKind::Failed => if bare {
                "Failed".to_string()
            } else {
                prefixed("Failed · ", &detail)
            },
            RowStatusKind::NoReply => if bare {
                "No reply yet".to_string()
            } else {
                prefixed("No reply yet · ", &detail)
            },
        }
    }

    /// Ink for the status sentence: accent-ink for working, warning for
    /// approval/questions, danger for failed, muted otherwise.
    pub fn ink(&self) -> (i: InkRole)
        ensures
            i == status_ink(self.kind),
    {
        match self.kind {
            RowStatusKind::Working => InkRole::AccentInk,
            RowStatusKind::NeedsApproval | RowStatusKind::Asked => InkRole::Warning,
            RowStatusKind::Failed => InkRole::Danger,
            RowStatusKind::Settled | RowStatusKind::NoReply => InkRole::Ink3,
        }
    }
}


/// One piece of the legacy context line, in drawing order.
#[derive(Debug, Clone, PartialEq)]
pub enum LegacyPart {
    /// The pin at the start of a pinned session's line.
    Pin,
    /// The repository tag.
    Repo(String),
    /// The branch tag, truncating.
    Branch(String),
    /// One of the caller's meta items.
    Meta(MetaItem),
    /// One provider mark; consecutive marks overlap.
    Provider(String),
    /// The activity sentence, with a spinner while working.
    Activity {
        /// The sentence.
        text: String,
        /// Its ink.
        ink: InkRole,
        /// Whether a spinner leads it.
        spinner: bool,
    },
}

/// What the context line shows.
#[derive(Debug, Clone, PartialEq)]
pub enum ContextLine {
    /// One truncating text in one ink. Empty words draw as a single space,
    /// so the line keeps its height.
    Single {
        /// The words.
        text: String,
        /// Their ink.
        ink: InkRole,
    },
    /// The ask (ink-2) and the result (ink-3) side by side, split by `·`.
    Pair {
        /// What was last asked.
        ask: String,
        /// What came back.
        result: String,
    },
    /// The legacy tags, marks and activity, in order.
    Legacy(Vec<LegacyPart>),
}

/// The ink an activity sentence takes on the context line.
pub open spec fn activity_ink(kind: ActivityKind) -> InkRole {
    match kind {
        ActivityKind::Working | ActivityKind::Plain => InkRole::Ink3,
        ActivityKind::Waiting => InkRole::Warning,
        ActivityKind::Failed => InkRole::Danger,
    }
}

/// The pin part of a pinned session.
pub open spec fn pin_part(s: SessionSummary) -> Seq<LegacyPart> {
    if s.pinned {
        seq![LegacyPart::Pin]
    } else {
        seq![]
    }
}

/// The repository tag part, when set.
pub open spec fn repo_part(s: SessionSummary) -> Seq<LegacyPart> {
    match s.repo {
        Some(r) => seq![LegacyPart::Repo(r)],
        None => seq![],
    }
}

/// The branch tag part, when set.
pub open spec fn branch_part(s: SessionSummary) -> Seq<LegacyPart> {
    match s.branch {
        Some(b) => seq![LegacyPart::Branch(b)],
        None => seq![],
    }
}

/// The legacy parts of `s`: the pin, the repo and branch tags, the meta
/// items, the provider marks, then the activity sentence.
pub open spec fn legacy_parts(s: SessionSummary) -> Seq<LegacyPart> {
    pin_part(s) + repo_part(s) + branch_part(s)
        + s.meta@.map_values(|m: MetaItem| LegacyPart::Meta(m))
        + s.providers@.map_values(|p: String| LegacyPart::Provider(p))
        + (match s.activity {
        Some(a) => seq![
            LegacyPart::Activity {
                text: a.text,
                ink: activity_ink(a.kind),
                spinner: a.kind == ActivityKind::Working,
            },
        ],
        None => seq![],
    })
}

/// `text`, or a single space when it is empty: an empty line still holds
/// its height.
pub open spec fn or_space(text: Seq<char>) -> Seq<char> {
    if text.len() == 0 {
        " "@
    } else {
        text
    }
}

/// Whether `line` shows exactly `text` in `ink`.
pub open spec fn shows(line: ContextLine, text: Seq<char>, ink: InkRole) -> bool {
    line matches ContextLine::Single { text: t, ink: i } && t@ == text && i == ink
}

/// What the context line of `s` shows, by the context-line priority.
pub open spec fn context_line_shows(s: SessionSummary, line: ContextLine) -> bool {
    match spec_context_line_kind(s) {
        ContextLineKind::Attention => shows(
            line,
            if is_blank(s.attention.unwrap()@) {
                " "@
            } else {
                s.attention.unwrap()@
            },
            InkRole::Ink2,
        ),
        ContextLineKind::Placeholder => match s.byline {
            Some(Byline::Placeholder(t)) => shows(line, or_space(t@), InkRole::Ink4),
            _ => false,
        },
        ContextLineKind::Preview => match s.byline {
            Some(Byline::Preview(t)) => shows(line, or_space(t@), InkRole::Ink3),
            _ => false,
        },
        ContextLineKind::Byline => match s.byline {
            Some(Byline::TwoLines { ask, result }) => if ask@.len() == 0 && result@.len() == 0 {
                shows(line, " "@, InkRole::Ink3)
            } else if ask@.len() == 0 {
                shows(line, result@, InkRole::Ink3)
            } else if result@.len() == 0 {
                shows(line, ask@, InkRole::Ink2)
            } else {
                line matches ContextLine::Pair { ask: a, result: r } && a@ == ask@ && r@ == result@
            },
            _ => false,
        },
        ContextLineKind::Project => shows(line, spec_project_branch(s).unwrap(), InkRole::Ink3),
        ContextLineKind::Meta => line matches ContextLine::Legacy(parts) && parts@ == legacy_parts(s),
        ContextLineKind::Empty => shows(line, " "@, InkRole::Ink3),
    }
}

fn single(text: &str, ink: InkRole) -> (line: ContextLine)
    ensures
        shows(line, text@, ink),
{
    ContextLine::Single { text: text.to_string(), ink }
}

fn single_or_space(text: &String, ink: InkRole) -> (line: ContextLine)
    ensures
        shows(line, or_space(text@), ink),
{
    if text.as_str().is_empty() {
        single(" ", ink)
    } else {
        ContextLine::Single { text: text.clone(), ink }
    }
}

/// The legacy parts of `s`, in drawing order.
pub fn legacy_context(s: &SessionSummary) -> (parts: Vec<LegacyPart>)
    ensures
        parts@ == legacy_parts(*s),
{
    let ghost pin = pin_part(*s);
    let ghost repo = repo_part(*s);
    let ghost branch = branch_part(*s);
    let mut parts: Vec<LegacyPart> = Vec::new();
    if s.pinned {
        parts.push(LegacyPart::Pin);
    }
    if let Some(r) = &s.repo {
        parts.push(LegacyPart::Repo(r.clone()));
    }
    if let Some(b) = &s.branch {
        parts.push(LegacyPart::Branch(b.clone()));
    }
    let ghost head = parts@;
    assert(head == pin + repo + branch);
    for i in 0..s.meta.len()
        invariant
            parts@ == head + s.meta@.take(i as int).map_values(|m: MetaItem| LegacyPart::Meta(m)),
    {
        parts.push(LegacyPart::Meta(s.meta[i].clone()));
        assert(s.meta@.take(i + 1).map_values(|m: MetaItem| LegacyPart::Meta(m)) == s.meta@.take(
            i as int,
        ).map_values(|m: MetaItem| LegacyPart::Meta(m)).push(LegacyPart::Meta(s.meta@[i as int])));
    }
    assert(s.meta@.take(s.meta@.len() as int) == s.meta@);
    let ghost mid = parts@;
    assert(mid == pin + repo + branch + s.meta@.map_values(|m: MetaItem| LegacyPart::Meta(m)));
    for i in 0..s.providers.len()
        invariant
            parts@ == mid + s.providers@.take(i as int).map_values(|p: String| LegacyPart::Provider(p)),
    {
        parts.push(LegacyPart::Provider(s.providers[i].clone()));
        assert(s.providers@.take(i + 1).map_values(|p: String| LegacyPart::Provider(p))
            == s.providers@.take(i as int).map_values(|p: String| LegacyPart::Provider(p)).push(
            LegacyPart::Provider(s.providers@[i as int]),
        ));
    }
    assert(s.providers@.take(s.providers@.len() as int) == s.providers@);
    if let Some(a) = &s.activity {
        let ink = match a.kind {
            ActivityKind::Working | ActivityKind::Plain => InkRole::Ink3,
            ActivityKind::Waiting => InkRole::Warning,
            ActivityKind::Failed => InkRole::Danger,
        };
        parts.push(
            LegacyPart::Activity {
                text: a.text.clone(),
                ink,
                spinner: a.kind == ActivityKind::Working,
            },
        );
    }
    parts
}

/// The full row's meta-line parts of `s`: the pin, the repo and branch
/// tags, the meta items, then the provider marks.
pub open spec fn meta_parts(s: SessionSummary) -> Seq<LegacyPart> {
    pin_part(s) + repo_part(s) + branch_part(s)
        + s.meta@.map_values(|m: MetaItem| LegacyPart::Meta(m))
        + s.providers@.map_values(|p: String| LegacyPart::Provider(p))
}

/// The full row's meta line, in drawing order: the pin first, then the
/// repo and branch tags, the meta items and the provider marks. The
/// activity sentence has a line of its own there ([`session_activity`]);
/// the line is drawn only when it has a part.
pub fn session_meta_parts(s: &SessionSummary) -> (parts: Vec<LegacyPart>)
    ensures
        parts@ == meta_parts(*s),
{
    let mut parts = legacy_context(s);
    if s.activity.is_some() {
        parts.pop();
    }
    assert(parts@ == meta_parts(*s));
    parts
}

/// What leads the full row's activity sentence.
#[derive(Debug, Clone, Copy, PartialEq, Eq, Structural)]
pub enum ActivityLead {
    /// A spinner: the agent is working.
    Spinner,
    /// The shield glyph, in warning: the agent waits on the person.
    Shield,
}

/// The ink and the lead of the full row's activity line for `kind`.
pub open spec fn spec_activity_line(kind: ActivityKind) -> (InkRole, Option<ActivityLead>) {
    match kind {
        ActivityKind::Working => (InkRole::Ink2, Some(ActivityLead::Spinner)),
        ActivityKind::Waiting => (InkRole::Warning, Some(ActivityLead::Shield)),
        ActivityKind::Failed => (InkRole::Danger, None),
        ActivityKind::Plain => (InkRole::Ink2, None),
    }
}

/// The full row's activity line for `kind`: ink-2 behind a spinner while
/// working, warning behind the shield while waiting, danger when failed,
/// plain ink-2 otherwise.
pub fn activity_line(kind: ActivityKind) -> (r: (InkRole, Option<ActivityLead>))
    ensures
        r == spec_activity_line(kind),
{
    match kind {
        ActivityKind::Working => (InkRole::Ink2, Some(ActivityLead::Spinner)),
        ActivityKind::Waiting => (InkRole::Warning, Some(ActivityLead::Shield)),
        ActivityKind::Failed => (InkRole::Danger, None),
        ActivityKind::Plain => (InkRole::Ink2, None),
    }
}

/// The full row's activity line of `s`, when it has an activity: the
/// sentence, its ink and its lead.
pub fn session_activity(s: &SessionSummary) -> (r: Option<(String, InkRole, Option<ActivityLead>)>)
    ensures
        match s.activity {
            Some(a) => r matches Some((t, ink, lead)) && t@ == a.text@ && (ink, lead) == spec_activity_line(
                a.kind,
            ),
            None => r is None,
        },
{
    match &s.activity {
        Some(a) => {
            let (ink, lead) = activity_line(a.kind);
            Some((a.text.clone(), ink, lead))
        },
        None => None,
    }
}

/// The compact row's context line, whatever it shows, is one line that
/// keeps its height and follows the priority: attention words win, in ink-2;
/// then the byline (a placeholder dimmed to ink-4, a preview in ink-3, an
/// ask and a result side by side only when both hold words); then the repo
/// leading and the branch closing the line, in ink-3; then the legacy meta
/// tags; else a blank line. Apart from the repo and branch, whose words are
/// the caller's, a single-text line is never empty.
pub proof fn lemma_context_line_priority(s: SessionSummary, line: ContextLine)
    requires
        context_line_shows(s, line),
    ensures
        s.attention is Some ==> line is Single && line->Single_ink == InkRole::Ink2,
        s.attention matches Some(a) ==> (!is_blank(a@) ==> line->Single_text@ == a@),
        s.attention is None && s.byline is Some ==> !(line is Legacy),
        s.attention is None && (s.byline matches Some(Byline::Placeholder(_))) ==> line is Single && line->Single_ink
            == InkRole::Ink4,
        s.attention is None && (s.byline matches Some(Byline::Preview(_))) ==> line is Single && line->Single_ink
            == InkRole::Ink3,
        line is Pair ==> line->Pair_ask@.len() > 0 && line->Pair_result@.len() > 0 && (s.byline matches Some(
            Byline::TwoLines { .. },
        )),
        s.attention is None && s.byline is None && (s.repo is Some || s.branch is Some) ==> line is Single
            && line->Single_ink == InkRole::Ink3 && (s.repo matches Some(r) ==> line->Single_text@.take(r@.len() as int)
            == r@) && (s.branch matches Some(b) ==> line->Single_text@.skip(line->Single_text@.len() - b@.len()) == b@),
        s.attention is None && s.byline is None && s.repo is None && s.branch is None ==> (line is Legacy
            == has_legacy_second_line(s)),
        line is Single && !(s.attention is None && s.byline is None && (s.repo is Some || s.branch is Some))
            ==> line->Single_text@.len() > 0,
{
    reveal_strlit(" ");
    reveal_strlit(" · ");
    if s.attention is Some {
        let a = s.attention.unwrap();
        if !is_blank(a@) {
            assert(a@.len() > 0) by {
                if a@.len() == 0 {
                    assert(trim(a@) == a@);
                }
            }
        }
    }
    if s.attention is None && s.byline is None {
        match (s.repo, s.branch) {
            (Some(r), Some(b)) => {
                let t = r@ + " · "@ + b@;
                assert(t.take(r@.len() as int) == r@);
                assert(t.skip(t.len() - b@.len()) == b@);
            },
            (Some(r), None) => {
                assert(r@.take(r@.len() as int) == r@);
            },
            (None, Some(b)) => {
                assert(b@.skip(0) == b@);
            },
            _ => {},
        }
    }
}

/// Status colour carries meaning on a session row: danger marks a failure
/// and only a failure, warning marks a session waiting on the person and
/// only that. On the compact row's legacy line the activity sentence comes
/// last, muted unless it fails or waits, behind a spinner exactly while
/// working; on the full row's activity line a working or plain sentence is
/// ink-2, the spinner leads work and the shield leads a wait; the status
/// sentence is accent while working, muted once settled or unanswered.
pub proof fn lemma_status_colours_carry_meaning(s: SessionSummary, kind: ActivityKind, status: RowStatusKind)
    ensures
        s.activity matches Some(a) ==> {
            let parts = legacy_parts(s);
            &&& parts.len() > 0
            &&& parts.last() is Activity
            &&& parts.last()->Activity_text == a.text
            &&& (parts.last()->Activity_ink == InkRole::Danger) == (a.kind == ActivityKind::Failed)
            &&& (parts.last()->Activity_ink == InkRole::Warning) == (a.kind == ActivityKind::Waiting)
            &&& (parts.last()->Activity_ink == InkRole::Ink3) == (a.kind == ActivityKind::Working || a.kind
                == ActivityKind::Plain)
            &&& parts.last()->Activity_spinner == (a.kind == ActivityKind::Working)
        },
        s.activity is None ==> forall|i: int| 0 <= i < legacy_parts(s).len() ==> !((#[trigger] legacy_parts(s)[i]) is Activity),
        (spec_activity_line(kind).0 == InkRole::Danger) == (kind == ActivityKind::Failed),
        (spec_activity_line(kind).0 == InkRole::Warning) == (kind == ActivityKind::Waiting),
        (spec_activity_line(kind).0 == InkRole::Ink2) == (kind == ActivityKind::Working || kind == ActivityKind::Plain),
        (spec_activity_line(kind).1 == Some(ActivityLead::Spinner)) == (kind == ActivityKind::Working),
        (spec_activity_line(kind).1 == Some(ActivityLead::Shield)) == (kind == ActivityKind::Waiting),
        (status_ink(status) == InkRole::Danger) == (status == RowStatusKind::Failed),
        (status_ink(status) == InkRole::Warning) == (status == RowStatusKind::Asked || status
            == RowStatusKind::NeedsApproval),
        (status_ink(status) == InkRole::AccentInk) == (status == RowStatusKind::Working),
        (status_ink(status) == InkRole::Ink3) == (status == RowStatusKind::Settled || status
            == RowStatusKind::NoReply),
{
    let head = pin_part(s) + repo_part(s) + branch_part(s)
        + s.meta@.map_values(|m: MetaItem| LegacyPart::Meta(m))
        + s.providers@.map_values(|p: String| LegacyPart::Provider(p));
    if s.activity is None {
        assert(legacy_parts(s) == head);
        assert forall|i: int| 0 <= i < legacy_parts(s).len() implies !((#[trigger] legacy_parts(s)[i]) is Activity) by {
            let a = pin_part(s) + repo_part(s) + branch_part(s);
            let m = s.meta@.map_values(|m: MetaItem| LegacyPart::Meta(m));
            let pr = s.providers@.map_values(|p: String| LegacyPart::Provider(p));
            assert(head == a + m + pr);
            if i < a.len() {
                assert(head[i] == a[i]);
                let b = pin_part(s) + repo_part(s);
                if i < b.len() {
                    assert(a[i] == b[i]);
                    if i < pin_part(s).len() {
                        assert(b[i] == pin_part(s)[i]);
                    } else {
                        assert(b[i] == repo_part(s)[i - pin_part(s).len()]);
                    }
                } else {
                    assert(a[i] == branch_part(s)[i - b.len()]);
                }
            } else if i < a.len() + m.len() {
                assert(head[i] == m[i - a.len()]);
            } else {
                assert(head[i] == pr[i - a.len() - m.len()]);
            }
        }
    } else {
        let a = s.activity.unwrap();
        let act = LegacyPart::Activity {
            text: a.text,
            ink: activity_ink(a.kind),
            spinner: a.kind == ActivityKind::Working,
        };
        assert(legacy_parts(s) == head + seq![act]);
        assert(legacy_parts(s).last() == act);
    }
}

/// The compact row's context (second) line: always exactly one line —
/// attention, byline, `project · branch`, legacy meta, or empty space.
pub fn context_line(s: &SessionSummary) -> (line: ContextLine)
    ensures
        context_line_shows(*s, line),
{
    if let Some(text) = &s.attention {
        if crate::text::blank(text.as_str()) {
            return single(" ", InkRole::Ink2);
        }
        return ContextLine::Single { text: text.clone(), ink: InkRole::Ink2 };
    }
    match &s.byline {
        Some(Byline::Placeholder(text)) => single_or_space(text, InkRole::Ink4),
        Some(Byline::Preview(text)) => single_or_space(text, InkRole::Ink3),
        Some(Byline::TwoLines { ask, result }) => {
            if ask.as_str().is_empty() && result.as_str().is_empty() {
                single(" ", InkRole::Ink3)
            } else if ask.as_str().is_empty() {
                ContextLine::Single { text: result.clone(), ink: InkRole::Ink3 }
            } else if result.as_str().is_empty() {
                ContextLine::Single { text: ask.clone(), ink: InkRole::Ink2 }
            } else {
                ContextLine::Pair { ask: ask.clone(), result: result.clone() }
            }
        },
        None => {
            if let Some(text) = project_branch_text(s) {
                return ContextLine::Single { text, ink: InkRole::Ink3 };
            }
            if !non_project_legacy(s) {
                return single(" ", InkRole::Ink3);
            }
            ContextLine::Legacy(legacy_context(s))
        },
    }
}

/// The status (third) line: the status sentence in its ink, or a single
/// space in ink-3 when the caller set no status, so the line keeps its
/// height.
pub fn status_line(status: &Option<RowStatus>) -> (line: (String, InkRole))
    ensures
        match status {
            Some(st) => line.0@ == status_sentence(st.kind, trim(st.detail@)) && line.1 == status_ink(
                st.kind,
            ),
            None => line.0@ == " "@ && line.1 == InkRole::Ink3,
        },
{
    match status {
        Some(st) => (st.text(), st.ink()),
        None => (" ".to_string(), InkRole::Ink3),
    }
}

/// One button of a row's hover tray.
#[derive(Debug, Clone, Copy, PartialEq, Eq, Structural)]
pub struct TrayButton {
    /// The action it reports.
    pub action: RowAction,
    /// The pin of a pinned session, drawn as unpin.
    pub unpin: bool,
}

/// The tray's buttons for `actions` on a session that is `pinned`, in order;
/// the pin of a pinned session is drawn as unpin and still reports `Pin`.
pub fn action_tray(actions: &[RowAction], pinned: bool) -> (out: Vec<TrayButton>)
    ensures
        out@.len() == actions@.len(),
        forall|i: int|
            0 <= i < out@.len() ==> (#[trigger] out@[i]) == (TrayButton {
                action: actions@[i],
                unpin: actions@[i] == RowAction::Pin && pinned,
            }),
{
    let mut out: Vec<TrayButton> = Vec::new();
    for i in 0..actions.len()
        invariant
            out@.len() == i,
            forall|j: int|
                0 <= j < i ==> (#[trigger] out@[j]) == (TrayButton {
                    action: actions@[j],
                    unpin: actions@[j] == RowAction::Pin && pinned,
                }),
    {
        let a = actions[i];
        out.push(TrayButton { action: a, unpin: is_unpin(a, pinned) });
    }
    out
}

/// A row's ground: surface-3 while selected, surface-2 under the pointer,
/// none at rest.
pub fn row_ground(selected: bool, hovered: bool) -> (r: (PaletteRole, bool))
    ensures
        r == (if selected { PaletteRole::Surface3 } else { PaletteRole::Surface2 }, selected || hovered),
{
    (if selected { PaletteRole::Surface3 } else { PaletteRole::Surface2 }, selected || hovered)
}

/// A session row in the sidebar: the summary, whether it is selected, and
/// its hover tray.
#[derive(Debug)]
pub struct SessionRow {
    /// Stable identity of the row.
    pub id: String,
    /// What the row shows.
    pub session: SessionSummary,
    /// The selected row.
    pub selected: bool,
    /// Whether the hover tray is drawn at all.
    pub show_actions: bool,
    /// The tray's actions; `None` draws the full tray.
    pub actions: Option<Vec<RowAction>>,
}

/// A row for `session` with the full tray.
pub fn session_row(id: &str, session: SessionSummary) -> (r: SessionRow)
    ensures
        r.id@ == id@,
        r.session == session,
        !r.selected,
        r.show_actions,
        r.actions is None,
{
    SessionRow { id: id.to_string(), session, selected: false, show_actions: true, actions: None }
}

impl SessionRow {
    /// Marks the selected row.
    pub fn selected(self, selected: bool) -> (r: Self)
        ensures
            r == (SessionRow { selected, ..self }),
    {
        SessionRow { selected, ..self }
    }

    /// Whether the hover tray is drawn.
    pub fn show_actions(self, show: bool) -> (r: Self)
        ensures
            r == (SessionRow { show_actions: show, ..self }),
    {
        SessionRow { show_actions: show, ..self }
    }

    /// The tray's actions.
    pub fn actions(self, actions: Vec<RowAction>) -> (r: Self)
        ensures
            r == (SessionRow { actions: Some(actions), ..self }),
    {
        SessionRow { actions: Some(actions), ..self }
    }

    /// Whether the tray shows: under the pointer, when the row has one.
    pub fn tray_visible(&self, hovered: bool) -> (b: bool)
        ensures
            b == (hovered && self.show_actions),
    {
        hovered && self.show_actions
    }

    /// The tray's buttons: none when the row has no tray, the named
    /// actions, or the full tray.
    pub fn tray(&self) -> (out: Vec<TrayButton>)
        ensures
            !self.show_actions ==> out@.len() == 0,
            self.show_actions ==> ({
                let acts = match self.actions {
                    Some(a) => a@,
                    None => seq![RowAction::Terminal, RowAction::Browser, RowAction::Pin, RowAction::More],
                };
                &&& out@.len() == acts.len()
                &&& forall|i: int|
                    0 <= i < out@.len() ==> (#[trigger] out@[i]) == (TrayButton {
                        action: acts[i],
                        unpin: acts[i] == RowAction::Pin && self.session.pinned,
                    })
            }),
    {
        if !self.show_actions {
            return Vec::new();
        }
        match &self.actions {
            Some(a) => action_tray(a.as_slice(), self.session.pinned),
            None => {
                let all = [RowAction::Terminal, RowAction::Browser, RowAction::Pin, RowAction::More];
                let out = action_tray(&all, self.session.pinned);
                assert(all@ == seq![RowAction::Terminal, RowAction::Browser, RowAction::Pin, RowAction::More]);
                out
            },
        }
    }
}

/// The compact three-line row: title, context line, status line.
#[derive(Debug)]
pub struct CompactSessionRow {
    /// Stable identity of the row.
    pub id: String,
    /// What the row shows.
    pub session: SessionSummary,
    /// The selected row.
    pub selected: bool,
    /// The tray's actions; empty draws no tray.
    pub actions: Vec<RowAction>,
    /// A rename field holds the title's place.
    pub editing: bool,
}

/// A compact row for `session` with no tray.
pub fn compact_session_row(id: &str, session: SessionSummary) -> (r: CompactSessionRow)
    ensures
        r.id@ == id@,
        r.session == session,
        !r.selected,
        r.actions@.len() == 0,
        !r.editing,
{
    CompactSessionRow { id: id.to_string(), session, selected: false, actions: Vec::new(), editing: false }
}

impl CompactSessionRow {
    /// Marks the selected row.
    pub fn selected(self, selected: bool) -> (r: Self)
        ensures
            r == (CompactSessionRow { selected, ..self }),
    {
        CompactSessionRow { selected, ..self }
    }

    /// The tray's actions.
    pub fn actions(self, actions: Vec<RowAction>) -> (r: Self)
        ensures
            r == (CompactSessionRow { actions, ..self }),
    {
        CompactSessionRow { actions, ..self }
    }

    /// A rename field holds the title's place.
    pub fn editing(self, editing: bool) -> (r: Self)
        ensures
            r == (CompactSessionRow { editing, ..self }),
    {
        CompactSessionRow { editing, ..self }
    }

    /// The title's ink: the primary ink while selected, ink-2 otherwise.
    pub fn title_ink(&self) -> (i: InkRole)
        ensures
            i == if self.selected { InkRole::Ink } else { InkRole::Ink2 },
    {
        if self.selected {
            InkRole::Ink
        } else {
            InkRole::Ink2
        }
    }

    /// Whether the tray shows: under the pointer, when the row has actions
    /// and no rename is open.
    pub fn tray_visible(&self, hovered: bool) -> (b: bool)
        ensures
            b == (hovered && self.actions@.len() > 0 && !self.editing),
    {
        hovered && self.actions.len() > 0 && !self.editing
    }

    /// Whether a click selects the row: a row being renamed is not a row
    /// waiting to be opened.
    pub fn click_selects(&self) -> (b: bool)
        ensures
            b == !self.editing,
    {
        !self.editing
    }
}

} // verus!
