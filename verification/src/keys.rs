//! The library's keyboard actions, the contexts that own them, their
//! default bindings, and the window-wide flag that says whether the keyboard
//! (rather than the mouse) last moved the focus.
use vstd::prelude::*;

use crate::text::{extend_str, string_from};

verus! {

/// The context a screen puts on its outermost element: it owns Tab and the
/// escape that closes whatever is open.
pub const ROOT_CONTEXT: &'static str = "AuiRoot";

/// The context a menu, picker or the command palette puts on itself while it
/// holds the keyboard: it owns the arrows, return and escape.
pub const MENU_CONTEXT: &'static str = "AuiMenu";

/// The context a pending approval card puts on itself while it is focused:
/// it owns Y, A and N.
pub const APPROVAL_CONTEXT: &'static str = "AuiApproval";

/// The library's keyboard actions.
#[derive(Debug, Clone, Copy, PartialEq, Eq, Structural)]
pub enum KeyAction {
    /// Swap the sidebar for its collapsed rail, and back.
    ToggleSidebar,
    /// Open or close the right pane.
    ToggleRightPane,
    /// Open or close the command palette.
    TogglePalette,
    /// Run the highlighted row of a menu or the palette.
    Confirm,
    /// Close the overlay that has the keyboard.
    Cancel,
    /// Move the highlight down one row.
    SelectNext,
    /// Move the highlight up one row.
    SelectPrev,
    /// Allow the pending request once.
    ApproveOnce,
    /// Allow it and remember the rule.
    ApproveAlways,
    /// Refuse the pending request.
    Deny,
    /// Move the keyboard to the next tab stop.
    FocusNext,
    /// Move the keyboard to the previous tab stop.
    FocusPrev,
}

/// One default binding: the keys as a binding spells them, the action, and
/// the context predicate it is limited to (`None`: anywhere).
#[derive(Debug)]
pub struct KeyBinding {
    /// The keys (`cmd-k`, `shift-tab`).
    pub keys: String,
    /// The action the keys run.
    pub action: KeyAction,
    /// The context predicate, or `None` for anywhere.
    pub context: Option<String>,
}

impl View for KeyBinding {
    type V = (Seq<char>, KeyAction, Option<Seq<char>>);

    open spec fn view(&self) -> (Seq<char>, KeyAction, Option<Seq<char>>) {
        (
            self.keys@,
            self.action,
            match self.context {
                Some(c) => Some(c@),
                None => None,
            },
        )
    }
}

/// The context escape is bound in: any of the menu, the approval card or the
/// root.
pub open spec fn dismiss_context_text() -> Seq<char> {
    MENU_CONTEXT@ + " || "@ + APPROVAL_CONTEXT@ + " || "@ + ROOT_CONTEXT@
}

/// The context predicate escape is bound in.
pub fn dismiss_context() -> (c: String)
    ensures
        c@ == dismiss_context_text(),
{
    let mut out: Vec<char> = Vec::new();
    extend_str(&mut out, MENU_CONTEXT);
    extend_str(&mut out, " || ");
    extend_str(&mut out, APPROVAL_CONTEXT);
    extend_str(&mut out, " || ");
    extend_str(&mut out, ROOT_CONTEXT);
    string_from(&out)
}

/// The default keymap, in the order it is installed.
pub open spec fn default_keymap() -> Seq<(Seq<char>, KeyAction, Option<Seq<char>>)> {
    seq![
        ("cmd-b"@, KeyAction::ToggleSidebar, None),
        ("cmd-k"@, KeyAction::TogglePalette, None),
        ("cmd-\\"@, KeyAction::ToggleRightPane, None),
        ("up"@, KeyAction::SelectPrev, Some(MENU_CONTEXT@)),
        ("down"@, KeyAction::SelectNext, Some(MENU_CONTEXT@)),
        ("enter"@, KeyAction::Confirm, Some(MENU_CONTEXT@)),
        ("escape"@, KeyAction::Cancel, Some(dismiss_context_text())),
        ("y"@, KeyAction::ApproveOnce, Some(APPROVAL_CONTEXT@)),
        ("a"@, KeyAction::ApproveAlways, Some(APPROVAL_CONTEXT@)),
        ("n"@, KeyAction::Deny, Some(APPROVAL_CONTEXT@)),
        ("tab"@, KeyAction::FocusNext, Some(ROOT_CONTEXT@)),
        ("shift-tab"@, KeyAction::FocusPrev, Some(ROOT_CONTEXT@)),
    ]
}

/// The default keymap binds every action, and each exactly once: no action
/// is left without keys and none answers to two bindings.
pub proof fn lemma_every_action_bound_once(action: KeyAction)
    ensures
        exists|i: int| 0 <= i < default_keymap().len() && (#[trigger] default_keymap()[i]).1 == action,
        forall|i: int, j: int|
            0 <= i < default_keymap().len() && 0 <= j < default_keymap().len() && (#[trigger] default_keymap()[i]).1
                == (#[trigger] default_keymap()[j]).1 ==> i == j,
{
    let m = default_keymap();
    let k: int = match action {
        KeyAction::ToggleSidebar => 0,
        KeyAction::TogglePalette => 1,
        KeyAction::ToggleRightPane => 2,
        KeyAction::SelectPrev => 3,
        KeyAction::SelectNext => 4,
        KeyAction::Confirm => 5,
        KeyAction::Cancel => 6,
        KeyAction::ApproveOnce => 7,
        KeyAction::ApproveAlways => 8,
        KeyAction::Deny => 9,
        KeyAction::FocusNext => 10,
        KeyAction::FocusPrev => 11,
    };
    assert(m[k].1 == action);
}

fn binding(keys: &str, action: KeyAction, context: Option<&str>) -> (b: KeyBinding)
    ensures
        b@ == (keys@, action, match context {
            Some(c) => Some(c@),
            None => None,
        }),
{
    KeyBinding {
        keys: keys.to_string(),
        action,
        context: match context {
            Some(c) => Some(c.to_string()),
            None => None,
        },
    }
}

/// The default bindings an application installs once at start-up; it may
/// rebind the same actions afterwards.
pub fn default_bindings() -> (out: Vec<KeyBinding>)
    ensures
        out@.map_values(|b: KeyBinding| b@) == default_keymap(),
{
    let dismiss = dismiss_context();
    let mut out: Vec<KeyBinding> = Vec::new();
    out.push(binding("cmd-b", KeyAction::ToggleSidebar, None));
    out.push(binding("cmd-k", KeyAction::TogglePalette, None));
    out.push(binding("cmd-\\", KeyAction::ToggleRightPane, None));
    out.push(binding("up", KeyAction::SelectPrev, Some(MENU_CONTEXT)));
    out.push(binding("down", KeyAction::SelectNext, Some(MENU_CONTEXT)));
    out.push(binding("enter", KeyAction::Confirm, Some(MENU_CONTEXT)));
    out.push(binding("escape", KeyAction::Cancel, Some(dismiss.as_str())));
    out.push(binding("y", KeyAction::ApproveOnce, Some(APPROVAL_CONTEXT)));
    out.push(binding("a", KeyAction::ApproveAlways, Some(APPROVAL_CONTEXT)));
    out.push(binding("n", KeyAction::Deny, Some(APPROVAL_CONTEXT)));
    out.push(binding("tab", KeyAction::FocusNext, Some(ROOT_CONTEXT)));
    out.push(binding("shift-tab", KeyAction::FocusPrev, Some(ROOT_CONTEXT)));
    assert(out@.map_values(|b: KeyBinding| b@) =~= default_keymap());
    out
}

/// The window-wide focus-visible flag: the keyboard arms it, a mouse press
/// disarms it, and a button draws its focus ring only while it is armed.
#[derive(Debug)]
pub struct KeyboardNav {
    armed: bool,
}

impl KeyboardNav {
    /// Whether the keyboard, rather than the mouse, last moved the focus.
    pub closed spec fn armed(self) -> bool {
        self.armed
    }

    /// The flag at start-up: disarmed.
    pub fn new() -> (k: Self)
        ensures
            !k.armed(),
    {
        KeyboardNav { armed: false }
    }

    /// Whether the keyboard, rather than the mouse, last moved the focus.
    pub fn keyboard_nav(&self) -> (b: bool)
        ensures
            b == self.armed(),
    {
        self.armed
    }

    /// Arms or disarms the flag.
    pub fn set_keyboard_nav(&mut self, on: bool)
        ensures
            final(self).armed() == on,
    {
        self.armed = on;
    }

    /// A mouse press anywhere in the window disarms the flag.
    pub fn pointer_down(&mut self)
        ensures
            !final(self).armed(),
    {
        self.set_keyboard_nav(false);
    }

    /// A key press anywhere in the window arms it again.
    pub fn key_down(&mut self)
        ensures
            final(self).armed(),
    {
        self.set_keyboard_nav(true);
    }
}

} // verus!
