//! The settings dialog's page and keyboard: which rows of the open section
//! take the arrow focus, how that focus steps, how a captured keystroke is
//! spelled, and what each key asks the host to do while a shortcut row is
//! (or is not) recording.
use vstd::prelude::*;

use crate::text::{extend_str, same_text, string_from};

verus! {

/// One section of the dialog: a rail row and its page.
#[derive(Debug)]
pub struct SettingsSection {
    /// Stable identity, reported when the rail row is chosen.
    pub id: String,
    /// The rail label.
    pub label: String,
    /// The page rows, in order.
    pub rows: Vec<SettingsRow>,
}

/// One row of a settings page.
#[derive(Debug)]
pub enum SettingsRow {
    /// A labelled switch.
    Switch {
        /// Stable identity, reported with every flip.
        id: String,
        /// The row label.
        label: String,
        /// An optional second line under the label.
        detail: Option<String>,
        /// Whether the switch is on. The host owns this; the dialog only
        /// reports flips.
        on: bool,
    },
    /// A shortcut row: the binding at the right, a "Press a key…" pill while
    /// recording, dimmed keycaps when reserved.
    Shortcut {
        /// Stable identity, reported with every edit.
        id: String,
        /// The row label.
        label: String,
        /// An optional second line under the label.
        detail: Option<String>,
        /// The current binding (`"cmd-shift-k"`), or `None` when unbound.
        keystroke: Option<String>,
        /// True while this row is capturing. The host owns this.
        recording: bool,
        /// False when the binding is reserved and refuses to be rebound.
        editable: bool,
    },
    /// A muted paragraph under a group.
    Note {
        /// The paragraph.
        text: String,
    },
    /// A caps group label inside a section.
    Heading {
        /// The label.
        text: String,
    },
}

/// What a shortcut row asks for; the host owns all state and stores the edit.
#[derive(Debug)]
pub enum ShortcutEdit {
    /// The row was pressed: the host should set `recording` on it.
    Record,
    /// A keystroke was captured while recording, spelled as a key binding
    /// spells it: the host stores it and clears `recording`.
    Bind(String),
    /// The clear affordance was pressed: unbind the action.
    Clear,
    /// Recording ended without a binding.
    Cancel,
}

/// Whether a row takes the arrow focus: switches and shortcut rows do,
/// notes and headings never.
pub open spec fn is_stop(row: SettingsRow) -> bool {
    row is Switch || row is Shortcut
}

/// The arrow-focus stops of a page: the indices of its switch and shortcut
/// rows, in page order.
pub open spec fn focus_stops(rows: Seq<SettingsRow>) -> Seq<usize>
    decreases rows.len(),
{
    if rows.len() == 0 {
        Seq::empty()
    } else if is_stop(rows.last()) {
        focus_stops(rows.drop_last()).push((rows.len() - 1) as usize)
    } else {
        focus_stops(rows.drop_last())
    }
}

proof fn lemma_focus_stops_in_page(rows: Seq<SettingsRow>)
    requires
        rows.len() <= usize::MAX,
    ensures
        focus_stops(rows).len() <= rows.len(),
        forall|k: int|
            0 <= k < focus_stops(rows).len() ==> #[trigger] focus_stops(rows)[k] < rows.len() && is_stop(
                rows[focus_stops(rows)[k] as int],
            ),
    decreases rows.len(),
{
    if rows.len() > 0 {
        let before = rows.drop_last();
        lemma_focus_stops_in_page(before);
        let stops = focus_stops(rows);
        assert forall|k: int| 0 <= k < stops.len() implies #[trigger] stops[k] < rows.len() && is_stop(
            rows[stops[k] as int],
        ) by {
            if k < focus_stops(before).len() {
                assert(stops[k] == focus_stops(before)[k]);
                assert(rows[stops[k] as int] == before[stops[k] as int]);
            } else {
                assert(is_stop(rows.last()));
                assert(stops == focus_stops(before).push((rows.len() - 1) as usize));
                assert(stops[k] == rows.len() - 1);
            }
        }
    }
}

/// The indices of the page's switch and shortcut rows, in page order.
pub fn page_stops(rows: &[SettingsRow]) -> (stops: Vec<usize>)
    ensures
        stops@ == focus_stops(rows@),
{
    let mut stops: Vec<usize> = Vec::new();
    let n = rows.len();
    let mut i: usize = 0;
    while i < n
        invariant
            i <= n,
            n == rows@.len(),
            stops@ == focus_stops(rows@.take(i as int)),
        decreases n - i,
    {
        assert(rows@.take(i + 1).drop_last() == rows@.take(i as int));
        match &rows[i] {
            SettingsRow::Switch { .. } => stops.push(i),
            SettingsRow::Shortcut { .. } => stops.push(i),
            _ => {},
        }
        i = i + 1;
    }
    assert(rows@.take(n as int) == rows@);
    stops
}

/// Whether a row is a shortcut row that is capturing.
pub open spec fn is_recording(row: SettingsRow) -> bool {
    row matches SettingsRow::Shortcut { recording, .. } && recording
}

/// The first recording row at or after `i`: the one that owns every
/// keystroke until the host clears it.
pub open spec fn recording_from(rows: Seq<SettingsRow>, i: int) -> Option<int>
    decreases rows.len() - i,
{
    if i < 0 || i >= rows.len() {
        None
    } else if is_recording(rows[i]) {
        Some(i)
    } else {
        recording_from(rows, i + 1)
    }
}

/// The recording row of a page, if any: the first shortcut row whose
/// `recording` is set.
pub open spec fn recording_row(rows: Seq<SettingsRow>) -> Option<int> {
    recording_from(rows, 0)
}

/// The index of the page's recording row, if any.
pub fn find_recording(rows: &[SettingsRow]) -> (r: Option<usize>)
    ensures
        match r {
            Some(i) => recording_row(rows@) == Some(i as int),
            None => recording_row(rows@) is None,
        },
        r matches Some(i) ==> i < rows@.len() && is_recording(rows@[i as int]),
{
    let n = rows.len();
    let mut i: usize = 0;
    while i < n
        invariant
            i <= n,
            n == rows@.len(),
            recording_from(rows@, 0) == recording_from(rows@, i as int),
        decreases n - i,
    {
        let hit = match &rows[i] {
            SettingsRow::Shortcut { recording, .. } => *recording,
            _ => false,
        };
        if hit {
            return Some(i);
        }
        i = i + 1;
    }
    None
}

/// Where one arrow step takes the row focus: `delta` is `+1` for `↓` and
/// `-1` for `↑`. From no focus `↓` lands on the first stop and `↑` on the
/// last; a focus clamps to the stops, so at either end it stays put.
pub open spec fn stepped(focused: Option<usize>, count: usize, delta: isize) -> Option<usize> {
    if count == 0 {
        None
    } else {
        match focused {
            Some(at) => {
                let next = at as isize + delta;
                Some(
                    if next < 0 {
                        0usize
                    } else if next > count - 1 {
                        (count - 1) as usize
                    } else {
                        next as usize
                    },
                )
            },
            None => Some(
                if delta > 0 {
                    0usize
                } else {
                    (count - 1) as usize
                },
            ),
        }
    }
}

/// Moves the row focus one step over `count` stops.
pub fn step_focus(focused: Option<usize>, count: usize, delta: isize) -> (r: Option<usize>)
    requires
        count <= isize::MAX,
        focused matches Some(at) ==> isize::MIN <= (at as isize) + delta <= isize::MAX,
    ensures
        r == stepped(focused, count, delta),
        count == 0 <==> r is None,
        r matches Some(at) ==> at < count,
{
    if count == 0 {
        return None;
    }
    match focused {
        Some(at) => {
            let next = at as isize + delta;
            let last = count as isize - 1;
            if next < 0 {
                Some(0)
            } else if next > last {
                Some(count - 1)
            } else {
                Some(next as usize)
            }
        },
        None => Some(
            if delta > 0 {
                0
            } else {
                count - 1
            },
        ),
    }
}

/// At either end of the page the focus stops: `↓` on the last stop and `↑`
/// on the first leave it where it is.
pub proof fn lemma_focus_stops_at_the_ends(count: usize)
    requires
        0 < count <= isize::MAX,
    ensures
        stepped(Some((count - 1) as usize), count, 1isize) == Some((count - 1) as usize),
        stepped(Some(0), count, -1isize) == Some(0usize),
{
}

/// The selected section index actually shown: past the last section it
/// clamps to the last one.
pub fn clamp_selected(count: usize, selected: usize) -> (r: usize)
    ensures
        count == 0 ==> r == 0,
        count > 0 ==> r == if selected < count { selected } else { (count - 1) as usize },
{
    if count == 0 {
        0
    } else if selected < count - 1 {
        selected
    } else {
        count - 1
    }
}

/// The modifiers held with a key.
#[derive(Debug, Clone, Copy, PartialEq, Eq, Structural)]
pub struct Modifiers {
    /// `ctrl`.
    pub control: bool,
    /// `alt` / option.
    pub alt: bool,
    /// `shift`.
    pub shift: bool,
    /// The platform key: `cmd`, or `super` / `win`.
    pub platform: bool,
    /// `fn`.
    pub function: bool,
}

/// A captured key-down: the key's name as the platform reports it and the
/// modifiers held with it.
#[derive(Debug)]
pub struct Keystroke {
    /// What is held.
    pub modifiers: Modifiers,
    /// The key's name (`k`, `down`, `shift`); empty for no key of its own.
    pub key: String,
}

/// `str::to_lowercase`: the Unicode lowercase mapping of `s`, which depends
/// on `s` alone.
pub uninterp spec fn lowercase(s: Seq<char>) -> Seq<char>;

/// `str::to_lowercase`, whose result is named by [`lowercase`]; nothing more
/// of the mapping is claimed.
#[verifier::external_body]
fn to_lowercase(s: &str) -> (out: String)
    ensures
        out@ == lowercase(s@),
{
    s.to_lowercase()
}

/// `piece` when `held`, nothing otherwise.
pub open spec fn when_held(held: bool, piece: Seq<char>) -> Seq<char> {
    if held {
        piece
    } else {
        Seq::empty()
    }
}

/// The modifiers in a key binding's fixed order `fn`, `ctrl`, `alt`, `cmd`,
/// `shift`, each followed by a hyphen. The platform modifier always spells
/// `cmd`.
pub open spec fn modifier_prefix(m: Modifiers) -> Seq<char> {
    when_held(m.function, "fn-"@) + when_held(m.control, "ctrl-"@) + when_held(m.alt, "alt-"@)
        + when_held(m.platform, "cmd-"@) + when_held(m.shift, "shift-"@)
}

/// How a captured keystroke is spelled: the modifier prefix, then the key's
/// name in lowercase (`"cmd-shift-k"`).
pub open spec fn keystroke_text(k: Keystroke) -> Seq<char> {
    modifier_prefix(k.modifiers) + lowercase(k.key@)
}

/// How a keystroke is spelled: the key itself, in lowercase, always closes
/// the spelling, and it stands alone when no modifier is held; each held
/// modifier adds its name and a hyphen before it (`fn-` always first,
/// `shift-` always last, the platform key always as `cmd-`), and nothing
/// else is added.
pub proof fn lemma_keystroke_spelling(k: Keystroke)
    ensures
        ({
            let p = modifier_prefix(k.modifiers);
            let m = k.modifiers;
            &&& keystroke_text(k).take(p.len() as int) == p
            &&& keystroke_text(k).skip(p.len() as int) == lowercase(k.key@)
            &&& !any_held(m) ==> p.len() == 0
            &&& p.len() == (if m.function { 3int } else { 0 }) + (if m.control { 5int } else { 0 }) + (if m.alt {
                4int
            } else {
                0
            }) + (if m.platform { 4int } else { 0 }) + (if m.shift { 6int } else { 0 })
            &&& m.function ==> p.take(3) == "fn-"@
            &&& m.shift ==> p.skip(p.len() - 6) == "shift-"@
            &&& (m.platform && !m.shift) ==> p.skip(p.len() - 4) == "cmd-"@
        }),
{
    reveal_strlit("fn-");
    reveal_strlit("ctrl-");
    reveal_strlit("alt-");
    reveal_strlit("cmd-");
    reveal_strlit("shift-");
    let m = k.modifiers;
    let p = modifier_prefix(m);
    let t = keystroke_text(k);
    assert(t == p + lowercase(k.key@));
    assert(t.take(p.len() as int) == p);
    assert(t.skip(p.len() as int) == lowercase(k.key@));
    let f = when_held(m.function, "fn-"@);
    let rest = when_held(m.control, "ctrl-"@) + when_held(m.alt, "alt-"@) + when_held(m.platform, "cmd-"@)
        + when_held(m.shift, "shift-"@);
    assert(p == f + rest);
    if m.function {
        assert(p.take(3) == f);
    }
    let init = when_held(m.function, "fn-"@) + when_held(m.control, "ctrl-"@) + when_held(m.alt, "alt-"@)
        + when_held(m.platform, "cmd-"@);
    assert(p == init + when_held(m.shift, "shift-"@));
    if m.shift {
        assert(p.skip(p.len() - 6) == "shift-"@);
    }
    if m.platform && !m.shift {
        let init2 = when_held(m.function, "fn-"@) + when_held(m.control, "ctrl-"@) + when_held(m.alt, "alt-"@);
        assert(p == init2 + "cmd-"@);
        assert(p.skip(p.len() - 4) == "cmd-"@);
    }
}

/// The binding spelling of `key` (already lowercased) held with `modifiers`.
pub fn spell_keystroke(modifiers: &Modifiers, key: &str) -> (out: String)
    ensures
        out@ == modifier_prefix(*modifiers) + key@,
{
    let mut out: Vec<char> = Vec::new();
    if modifiers.function {
        extend_str(&mut out, "fn-");
    }
    if modifiers.control {
        extend_str(&mut out, "ctrl-");
    }
    if modifiers.alt {
        extend_str(&mut out, "alt-");
    }
    if modifiers.platform {
        extend_str(&mut out, "cmd-");
    }
    if modifiers.shift {
        extend_str(&mut out, "shift-");
    }
    extend_str(&mut out, key);
    let m = *modifiers;
    assert(out@ == modifier_prefix(m) + key@);
    string_from(&out)
}

/// Spells a captured keystroke the way a key binding parses it: modifiers in
/// the fixed order `fn`, `ctrl`, `alt`, `cmd`, `shift`, lowercase and
/// hyphen-separated, e.g. `"cmd-shift-k"`.
pub fn format_keystroke(keystroke: &Keystroke) -> (out: String)
    ensures
        out@ == keystroke_text(*keystroke),
{
    let key = to_lowercase(keystroke.key.as_str());
    spell_keystroke(&keystroke.modifiers, key.as_str())
}

/// The names a modifier key reports for itself.
pub open spec fn modifier_name(key: Seq<char>) -> bool {
    key == "shift"@ || key == "control"@ || key == "ctrl"@ || key == "alt"@ || key == "cmd"@
        || key == "platform"@ || key == "super"@ || key == "win"@ || key == "fn"@ || key == "function"@
}

/// Whether any modifier is held.
pub open spec fn any_held(m: Modifiers) -> bool {
    m.control || m.alt || m.shift || m.platform || m.function
}

/// Whether a key-down carries no key of its own: an empty key, or a
/// modifier's own name with no modifier held (the release-time echo of a
/// bare modifier press). A modifier name arriving with other modifiers held
/// still counts as a keystroke.
pub open spec fn bare_modifier(k: Keystroke) -> bool {
    k.key@.len() == 0 || (!any_held(k.modifiers) && modifier_name(k.key@))
}

/// Whether `key` is one of the names a modifier key reports for itself.
fn is_modifier_name(key: &str) -> (b: bool)
    ensures
        b == modifier_name(key@),
{
    same_text(key, "shift") || same_text(key, "control") || same_text(key, "ctrl") || same_text(
        key,
        "alt",
    ) || same_text(key, "cmd") || same_text(key, "platform") || same_text(key, "super")
        || same_text(key, "win") || same_text(key, "fn") || same_text(key, "function")
}

/// Whether a key-down is a bare modifier press, which is never bound.
pub fn is_bare_modifier(keystroke: &Keystroke) -> (b: bool)
    ensures
        b == bare_modifier(*keystroke),
{
    let key = keystroke.key.as_str();
    if key.is_empty() {
        return true;
    }
    let m = &keystroke.modifiers;
    if m.control || m.alt || m.shift || m.platform || m.function {
        return false;
    }
    is_modifier_name(key)
}

/// A settings dialog over `sections` with one of them open. The host owns
/// the sections and the selection and passes them every frame.
#[derive(Debug)]
pub struct SettingsDialog {
    /// Stable identity of the dialog.
    pub id: String,
    /// The sections, in rail order.
    pub sections: Vec<SettingsSection>,
    /// The section asked to be open.
    pub selected: usize,
    /// Whether the dialog is open; `false` plays the exit.
    pub present: bool,
}

/// A settings dialog over `sections` with the `selected`-th section open.
pub fn settings_dialog(id: &str, sections: Vec<SettingsSection>, selected: usize) -> (d: SettingsDialog)
    ensures
        d.id@ == id@,
        d.sections == sections,
        d.selected == selected,
        d.present,
{
    SettingsDialog { id: id.to_string(), sections, selected, present: true }
}

impl SettingsDialog {
    /// Whether the dialog is open; `false` plays the exit.
    pub fn present(self, present: bool) -> (d: Self)
        ensures
            d == (SettingsDialog { present, ..self }),
    {
        SettingsDialog { present, ..self }
    }

    /// The section actually open: `selected`, or the last section when
    /// `selected` runs past it; `None` with no sections at all.
    pub fn open_section(&self) -> (r: Option<usize>)
        ensures
            self.sections@.len() == 0 <==> r is None,
            r matches Some(i) ==> i == if self.selected < self.sections@.len() {
                self.selected as int
            } else {
                self.sections@.len() - 1
            },
    {
        let count = self.sections.len();
        if count == 0 {
            None
        } else {
            Some(clamp_selected(count, self.selected))
        }
    }
}

/// What the right end of a shortcut row shows.
#[derive(Debug)]
pub enum ShortcutControl {
    /// A "Press a key…" pill in the accent role.
    Recording,
    /// A reserved row: its keycaps dimmed, or a dimmed "unassigned" when it
    /// is unbound; no clear affordance and no press target.
    Reserved(Option<String>),
    /// The keycaps plus a clear affordance.
    Bound(String),
    /// A quiet "unassigned" in ink-3.
    Unassigned,
}

/// The control a shortcut row draws for its state: recording wins, then a
/// reserved row, then the binding or its absence.
pub fn shortcut_control(keystroke: &Option<String>, recording: bool, editable: bool) -> (c: ShortcutControl)
    ensures
        recording ==> c is Recording,
        !recording && !editable ==> (c matches ShortcutControl::Reserved(k) && match (k, *keystroke) {
            (Some(a), Some(b)) => a@ == b@,
            (None, None) => true,
            _ => false,
        }),
        !recording && editable ==> match *keystroke {
            Some(b) => c matches ShortcutControl::Bound(a) && a@ == b@,
            None => c is Unassigned,
        },
{
    if recording {
        return ShortcutControl::Recording;
    }
    let bound = match keystroke {
        Some(k) => Some(k.clone()),
        None => None,
    };
    if !editable {
        return ShortcutControl::Reserved(bound);
    }
    match bound {
        Some(k) => ShortcutControl::Bound(k),
        None => ShortcutControl::Unassigned,
    }
}

/// Whether a click on a shortcut row reports [`ShortcutEdit::Record`]: only
/// an editable row at rest can be pressed.
pub fn shortcut_pressable(recording: bool, editable: bool) -> (b: bool)
    ensures
        b == (editable && !recording),
{
    editable && !recording
}

/// What reaches the dialog's card: the four bound keys, any other key-down,
/// and a dismissal by pointer (the scrim, the `esc` keycap, the close glyph).
#[derive(Debug)]
pub enum SettingsEvent {
    /// `↓`.
    SelectNext,
    /// `↑`.
    SelectPrev,
    /// `enter` or `space`.
    Confirm,
    /// `esc`.
    Cancel,
    /// A key-down no binding took, or the `enter` / `space` that
    /// [`SettingsAction::Pass`] handed on.
    KeyDown(Keystroke),
    /// The scrim, the `esc` keycap or the close glyph was clicked.
    Dismiss,
}

/// What the dialog asks of its host after one event.
#[derive(Debug)]
pub enum SettingsAction {
    /// Nothing to report.
    Idle,
    /// Flip a switch: its id and its new value.
    Switch {
        /// The switch row's id.
        id: String,
        /// The value the switch should take.
        on: bool,
    },
    /// A shortcut row edit.
    Shortcut {
        /// The shortcut row's id.
        id: String,
        /// What the row asks for.
        edit: ShortcutEdit,
    },
    /// Close the dialog.
    Dismiss,
    /// End the recording row's capture without a binding, then close the
    /// dialog: no dismissal strands a row in `recording`.
    CancelAndDismiss {
        /// The recording row's id.
        id: String,
    },
    /// `enter` / `space` while a row is recording: the key goes on to the
    /// key-down capture, which reports it as a [`SettingsEvent::KeyDown`].
    Pass,
}

/// A shortcut edit as plain values.
pub enum EditView {
    /// See [`ShortcutEdit::Record`].
    Record,
    /// See [`ShortcutEdit::Bind`].
    Bind(Seq<char>),
    /// See [`ShortcutEdit::Clear`].
    Clear,
    /// See [`ShortcutEdit::Cancel`].
    Cancel,
}

/// A host request as plain values.
pub enum ActionView {
    /// See [`SettingsAction::Idle`].
    Idle,
    /// See [`SettingsAction::Switch`].
    Switch(Seq<char>, bool),
    /// See [`SettingsAction::Shortcut`].
    Shortcut(Seq<char>, EditView),
    /// See [`SettingsAction::Dismiss`].
    Dismiss,
    /// See [`SettingsAction::CancelAndDismiss`].
    CancelAndDismiss(Seq<char>),
    /// See [`SettingsAction::Pass`].
    Pass,
}

impl View for ShortcutEdit {
    type V = EditView;

    open spec fn view(&self) -> EditView {
        match self {
            ShortcutEdit::Record => EditView::Record,
            ShortcutEdit::Bind(k) => EditView::Bind(k@),
            ShortcutEdit::Clear => EditView::Clear,
            ShortcutEdit::Cancel => EditView::Cancel,
        }
    }
}

impl View for SettingsAction {
    type V = ActionView;

    open spec fn view(&self) -> ActionView {
        match self {
            SettingsAction::Idle => ActionView::Idle,
            SettingsAction::Switch { id, on } => ActionView::Switch(id@, *on),
            SettingsAction::Shortcut { id, edit } => ActionView::Shortcut(id@, edit@),
            SettingsAction::Dismiss => ActionView::Dismiss,
            SettingsAction::CancelAndDismiss { id } => ActionView::CancelAndDismiss(id@),
            SettingsAction::Pass => ActionView::Pass,
        }
    }
}

/// The row focus after one event, and what the host is asked to do.
#[derive(Debug)]
pub struct SettingsStep {
    /// The row focus to keep: an index into the page's focus stops.
    pub focused: Option<usize>,
    /// What the host is asked to do.
    pub action: SettingsAction,
}

/// The id a switch or shortcut row reports.
pub open spec fn row_id(row: SettingsRow) -> Seq<char> {
    match row {
        SettingsRow::Switch { id, .. } => id@,
        SettingsRow::Shortcut { id, .. } => id@,
        _ => Seq::empty(),
    }
}

/// The kept row focus, when it still points at one of the page's stops.
pub open spec fn live_focus(rows: Seq<SettingsRow>, focused: Option<usize>) -> Option<usize> {
    match focused {
        Some(at) => if at < focus_stops(rows).len() {
            Some(at)
        } else {
            None
        },
        None => None,
    }
}

/// What `enter` / `space` asks with no row recording: the focused switch
/// flips; the focused shortcut row starts recording unless it is reserved;
/// with nothing focused, nothing happens.
pub open spec fn confirm_action(rows: Seq<SettingsRow>, live: Option<usize>) -> ActionView {
    match live {
        Some(k) => match rows[focus_stops(rows)[k as int] as int] {
            SettingsRow::Switch { id, on, .. } => ActionView::Switch(id@, !on),
            SettingsRow::Shortcut { id, editable, recording, .. } => if editable && !recording {
                ActionView::Shortcut(id@, EditView::Record)
            } else {
                ActionView::Idle
            },
            _ => ActionView::Idle,
        },
        None => ActionView::Idle,
    }
}

/// The outcome of one event on a page whose rows are `rows`, with the row
/// focus `focused` kept from before. While a row records, every key reports
/// to that row and none moves the focus: `↓` / `↑` bind `down` / `up`,
/// `enter` / `space` pass on to the key-down capture, `esc` cancels the
/// capture without closing the dialog, a key-down binds its spelling unless
/// it is a bare modifier, and a dismissal cancels the capture first.
/// Otherwise the arrows step the focus, `enter` / `space` act on the
/// focused row, `esc` and a dismissal close the dialog, and other keys do
/// nothing.
pub open spec fn settings_outcome(rows: Seq<SettingsRow>, focused: Option<usize>, event: SettingsEvent) -> (
    Option<usize>,
    ActionView,
) {
    let count = focus_stops(rows).len() as usize;
    match recording_row(rows) {
        Some(r) => {
            let id = row_id(rows[r]);
            (
                focused,
                match event {
                    SettingsEvent::SelectNext => ActionView::Shortcut(id, EditView::Bind("down"@)),
                    SettingsEvent::SelectPrev => ActionView::Shortcut(id, EditView::Bind("up"@)),
                    SettingsEvent::Confirm => ActionView::Pass,
                    SettingsEvent::Cancel => ActionView::Shortcut(id, EditView::Cancel),
                    SettingsEvent::KeyDown(k) => if bare_modifier(k) {
                        ActionView::Idle
                    } else {
                        ActionView::Shortcut(id, EditView::Bind(keystroke_text(k)))
                    },
                    SettingsEvent::Dismiss => ActionView::CancelAndDismiss(id),
                },
            )
        },
        None => match event {
            SettingsEvent::SelectNext => (stepped(focused, count, 1isize), ActionView::Idle),
            SettingsEvent::SelectPrev => (stepped(focused, count, -1isize), ActionView::Idle),
            SettingsEvent::Confirm => (focused, confirm_action(rows, live_focus(rows, focused))),
            SettingsEvent::Cancel => (focused, ActionView::Dismiss),
            SettingsEvent::KeyDown(_) => (focused, ActionView::Idle),
            SettingsEvent::Dismiss => (focused, ActionView::Dismiss),
        },
    }
}

/// The id of a switch or shortcut row.
fn id_of(row: &SettingsRow) -> (id: String)
    ensures
        id@ == row_id(*row),
{
    match row {
        SettingsRow::Switch { id, .. } => id.clone(),
        SettingsRow::Shortcut { id, .. } => id.clone(),
        _ => String::new(),
    }
}

/// One event on the dialog's card, over the open page's `rows` with the row
/// focus `focused` kept from the last event.
pub fn settings_step(rows: &[SettingsRow], focused: Option<usize>, event: SettingsEvent) -> (step: SettingsStep)
    requires
        rows@.len() <= isize::MAX,
        event is SelectNext ==> (focused matches Some(at) ==> (at as isize) < isize::MAX),
        event is SelectPrev ==> (focused matches Some(at) ==> (at as isize) > isize::MIN),
    ensures
        (step.focused, step.action@) == settings_outcome(rows@, focused, event),
{
    let stops = page_stops(rows);
    let count = stops.len();
    proof {
        lemma_focus_stops_in_page(rows@);
        assert(count == focus_stops(rows@).len() as usize);
    }
    let recording = find_recording(rows);
    match recording {
        Some(r) => {
            let id = id_of(&rows[r]);
            let action = match event {
                SettingsEvent::SelectNext => SettingsAction::Shortcut {
                    id,
                    edit: ShortcutEdit::Bind("down".to_string()),
                },
                SettingsEvent::SelectPrev => SettingsAction::Shortcut {
                    id,
                    edit: ShortcutEdit::Bind("up".to_string()),
                },
                SettingsEvent::Confirm => SettingsAction::Pass,
                SettingsEvent::Cancel => SettingsAction::Shortcut { id, edit: ShortcutEdit::Cancel },
                SettingsEvent::KeyDown(k) => if is_bare_modifier(&k) {
                    SettingsAction::Idle
                } else {
                    SettingsAction::Shortcut { id, edit: ShortcutEdit::Bind(format_keystroke(&k)) }
                },
                SettingsEvent::Dismiss => SettingsAction::CancelAndDismiss { id },
            };
            SettingsStep { focused, action }
        },
        None => match event {
            SettingsEvent::SelectNext => SettingsStep {
                focused: step_focus(focused, count, 1),
                action: SettingsAction::Idle,
            },
            SettingsEvent::SelectPrev => SettingsStep {
                focused: step_focus(focused, count, -1),
                action: SettingsAction::Idle,
            },
            SettingsEvent::Confirm => {
                let live = match focused {
                    Some(at) => if at < count {
                        Some(at)
                    } else {
                        None
                    },
                    None => None,
                };
                let action = match live {
                    Some(at) => match &rows[stops[at]] {
                        SettingsRow::Switch { id, on, .. } => SettingsAction::Switch { id: id.clone(), on: !*on },
                        SettingsRow::Shortcut { id, editable, recording, .. } => if *editable && !*recording {
                            SettingsAction::Shortcut { id: id.clone(), edit: ShortcutEdit::Record }
                        } else {
                            SettingsAction::Idle
                        },
                        _ => SettingsAction::Idle,
                    },
                    None => SettingsAction::Idle,
                };
                SettingsStep { focused, action }
            },
            SettingsEvent::Cancel => SettingsStep { focused, action: SettingsAction::Dismiss },
            SettingsEvent::KeyDown(_) => SettingsStep { focused, action: SettingsAction::Idle },
            SettingsEvent::Dismiss => SettingsStep { focused, action: SettingsAction::Dismiss },
        },
    }
}

/// While a shortcut row records it owns the keyboard: no event moves the row
/// focus, flips a switch, or closes the dialog.
pub proof fn lemma_recording_owns_the_keyboard(
    rows: Seq<SettingsRow>,
    focused: Option<usize>,
    event: SettingsEvent,
)
    requires
        recording_row(rows) is Some,
    ensures
        settings_outcome(rows, focused, event).0 == focused,
        !(settings_outcome(rows, focused, event).1 is Dismiss),
        !(settings_outcome(rows, focused, event).1 is Switch),
{
}

/// No dismissal strands a row in `recording`: closing the dialog while row
/// `r` records cancels its capture first, and `esc` cancels the capture and
/// leaves the dialog open.
pub proof fn lemma_dismissal_ends_recording(rows: Seq<SettingsRow>, focused: Option<usize>, r: int)
    requires
        recording_row(rows) == Some(r),
    ensures
        settings_outcome(rows, focused, SettingsEvent::Dismiss).1 == ActionView::CancelAndDismiss(
            row_id(rows[r]),
        ),
        settings_outcome(rows, focused, SettingsEvent::Cancel).1 == ActionView::Shortcut(
            row_id(rows[r]),
            EditView::Cancel,
        ),
{
}

/// The arrows only ever land on switch and shortcut rows: after `↓` or `↑`
/// on a page that is not recording, the focus names one of the page's stops
/// (or nothing, on a page without any).
pub proof fn lemma_arrows_land_on_stops(rows: Seq<SettingsRow>, focused: Option<usize>)
    requires
        rows.len() <= isize::MAX,
        recording_row(rows) is None,
    ensures
        settings_outcome(rows, focused, SettingsEvent::SelectNext).0 matches Some(k) ==> k < focus_stops(
            rows,
        ).len() && is_stop(rows[focus_stops(rows)[k as int] as int]),
        settings_outcome(rows, focused, SettingsEvent::SelectPrev).0 matches Some(k) ==> k < focus_stops(
            rows,
        ).len() && is_stop(rows[focus_stops(rows)[k as int] as int]),
{
    lemma_focus_stops_in_page(rows);
}

/// A reserved shortcut row cannot be pressed: `enter` on it asks nothing.
pub proof fn lemma_reserved_rows_are_not_pressed(rows: Seq<SettingsRow>, focused: Option<usize>, k: usize)
    requires
        recording_row(rows) is None,
        live_focus(rows, focused) == Some(k),
        rows[focus_stops(rows)[k as int] as int] matches SettingsRow::Shortcut { editable, .. } && !editable,
    ensures
        settings_outcome(rows, focused, SettingsEvent::Confirm).1 == ActionView::Idle,
{
}

} // verus!
