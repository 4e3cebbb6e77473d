//! Toast cards: the icon tile each kind draws, the action buttons, the data
//! the host owns for each toast, and where a toast sits in the stack.
use vstd::prelude::*;

use crate::data::button::ButtonVariant;
use crate::ink::PaletteRole;

verus! {

/// The icon tile of a toast.
#[derive(Debug, Clone, Copy, PartialEq, Eq, Structural)]
pub enum ToastKind {
    /// Surface-3 ground, ink-2, no glyph.
    Neutral,
    /// Success-soft ground, the success check.
    Done,
    /// Warning-soft ground, the warning shield.
    Warn,
}

impl Default for ToastKind {
    fn default() -> (k: Self)
        ensures
            k == ToastKind::Neutral,
    {
        ToastKind::Neutral
    }
}

impl ToastKind {
    /// The tile's ground, its ink, and the name of its glyph.
    pub fn tile(self) -> (r: (PaletteRole, PaletteRole, Option<&'static str>))
        ensures
            match self {
                ToastKind::Neutral => r.0 == PaletteRole::Surface3 && r.1 == PaletteRole::Ink2 && r.2 is None,
                ToastKind::Done => r.0 == PaletteRole::SuccessSoft && r.1 == PaletteRole::Success && (r.2 matches Some(
                    g,
                ) && g@ == "check"@),
                ToastKind::Warn => r.0 == PaletteRole::WarningSoft && r.1 == PaletteRole::Warning && (r.2 matches Some(
                    g,
                ) && g@ == "shield"@),
            },
    {
        match self {
            ToastKind::Neutral => (PaletteRole::Surface3, PaletteRole::Ink2, None),
            ToastKind::Done => (PaletteRole::SuccessSoft, PaletteRole::Success, Some("check")),
            ToastKind::Warn => (PaletteRole::WarningSoft, PaletteRole::Warning, Some("shield")),
        }
    }
}

/// One xs button in a toast's action row.
#[derive(Debug)]
pub struct ToastAction {
    /// Identifies the action when it is pressed.
    pub id: String,
    /// The button label.
    pub label: String,
    /// Drawn as the accent-filled primary instead of the secondary.
    pub primary: bool,
}

impl ToastAction {
    /// A secondary action.
    pub fn new(id: &str, label: &str) -> (a: Self)
        ensures
            a.id@ == id@,
            a.label@ == label@,
            !a.primary,
    {
        ToastAction { id: id.to_string(), label: label.to_string(), primary: false }
    }

    /// Marks the action as the primary one.
    pub fn primary(self) -> (a: Self)
        ensures
            a == (ToastAction { primary: true, ..self }),
    {
        ToastAction { primary: true, ..self }
    }
}

/// The style of the action button at `index` in a toast's row: an action
/// that asked to be primary draws primary; otherwise the leading one is the
/// secondary button and every later one subtle.
pub fn action_variant(primary: bool, index: usize) -> (v: ButtonVariant)
    ensures
        v == (if primary {
            ButtonVariant::Primary
        } else if index == 0 {
            ButtonVariant::Secondary
        } else {
            ButtonVariant::Subtle
        }),
{
    if primary {
        ButtonVariant::Primary
    } else if index == 0 {
        ButtonVariant::Secondary
    } else {
        ButtonVariant::Subtle
    }
}

/// What a toast draws; the renderer keeps the auto-dismiss progress.
#[derive(Debug)]
pub struct ToastData {
    /// Stable identity of the toast.
    pub id: String,
    /// Which icon tile to draw.
    pub kind: ToastKind,
    /// The title.
    pub title: String,
    /// The body line.
    pub body: String,
    /// The xs action buttons below the body.
    pub actions: Vec<ToastAction>,
}

impl ToastData {
    /// A neutral toast with a title and a body line.
    pub fn new(id: &str, title: &str, body: &str) -> (t: Self)
        ensures
            t.id@ == id@,
            t.kind == ToastKind::Neutral,
            t.title@ == title@,
            t.body@ == body@,
            t.actions@.len() == 0,
    {
        ToastData {
            id: id.to_string(),
            kind: ToastKind::Neutral,
            title: title.to_string(),
            body: body.to_string(),
            actions: Vec::new(),
        }
    }

    /// Sets the icon tile.
    pub fn kind(self, kind: ToastKind) -> (t: Self)
        ensures
            t == (ToastData { kind, ..self }),
    {
        ToastData { kind, ..self }
    }

    /// Adds an action button.
    pub fn action(self, action: ToastAction) -> (t: Self)
        ensures
            t == (ToastData { actions: t.actions, ..self }),
            t.actions@ == self.actions@.push(action),
    {
        let mut t = self;
        t.actions.push(action);
        t
    }
}

/// The toast stack, oldest first: the last toast is the newest and is drawn
/// in front.
#[derive(Debug)]
pub struct ToastStack {
    /// Stable identity of the stack.
    pub id: String,
    /// The toasts, oldest first.
    pub toasts: Vec<ToastData>,
    /// The fanned-out state forced on or off; `None` follows the pointer.
    pub hovered: Option<bool>,
    /// Whether every toast is drawn at rest on the first frame, with no
    /// enter.
    pub at_rest: bool,
}

/// The stack of `toasts`, oldest first.
pub fn toast_stack(id: &str, toasts: Vec<ToastData>) -> (s: ToastStack)
    ensures
        s.id@ == id@,
        s.toasts == toasts,
        s.hovered is None,
        !s.at_rest,
{
    ToastStack { id: id.to_string(), toasts, hovered: None, at_rest: false }
}

impl ToastStack {
    /// Forces the fanned-out state on or off instead of following the
    /// pointer.
    pub fn hovered(self, hovered: Option<bool>) -> (s: Self)
        ensures
            s == (ToastStack { hovered, ..self }),
    {
        ToastStack { hovered, ..self }
    }

    /// Draws every toast at rest on the first frame, with no enter.
    pub fn at_rest(self) -> (s: Self)
        ensures
            s == (ToastStack { at_rest: true, ..self }),
    {
        ToastStack { at_rest: true, ..self }
    }

    /// Whether the stack fans out: as forced, else while the pointer is over
    /// it.
    pub fn fanned(&self, pointer_over: bool) -> (b: bool)
        ensures
            b == match self.hovered {
                Some(h) => h,
                None => pointer_over,
            },
    {
        match self.hovered {
            Some(h) => h,
            None => pointer_over,
        }
    }

    /// How far back the toast at `index` sits: the newest (the last) is at
    /// depth 0, in front; each older one is one step further back.
    pub fn depth(&self, index: usize) -> (d: usize)
        requires
            index < self.toasts@.len(),
        ensures
            d == self.toasts@.len() - 1 - index,
    {
        self.toasts.len() - 1 - index
    }
}

} // verus!
