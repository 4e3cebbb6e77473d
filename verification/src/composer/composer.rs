//! The composer card: its context chips, its toolbar chips, the context
//! note, the frame it draws, and the send / stop control.
use vstd::prelude::*;

use crate::text::{decimal, decimal_chars, extend_chars, extend_str, string_from};

verus! {

/// What a context chip stands for.
#[derive(Debug, Clone, Copy, PartialEq, Eq, Structural)]
pub enum ComposerChipKind {
    /// `@` file or symbol mention.
    Mention,
    /// An image attachment.
    Image,
    /// A file attachment.
    File,
    /// `$` skill.
    Skill,
}

/// A chip above the text.
#[derive(Debug, Clone, PartialEq)]
pub struct ComposerChip {
    /// Stable id, reported on removal.
    pub id: String,
    /// What it is.
    pub kind: ComposerChipKind,
    /// Label (`src/checkout`, `form.png`, `test-writer`).
    pub label: String,
    /// Whether it shows the remove `x`.
    pub removable: bool,
}

/// What the composer asks for.
#[derive(Debug, Clone, PartialEq)]
pub enum ComposerIntent {
    /// Send the text.
    Send,
    /// Interrupt the running turn.
    Stop,
    /// Toggle the `+` menu.
    TogglePlus,
    /// Open the model picker.
    Model,
    /// Open the mode picker.
    Mode,
    /// Open the effort picker.
    Effort,
    /// Remove a chip.
    RemoveChip(String),
}

/// What leads a chip: the typed sigil of a mention or a skill, or the
/// glyph of an attachment.
#[derive(Debug, Clone, Copy, PartialEq, Eq, Structural)]
pub enum ChipLead {
    /// The mono `@` of a mention.
    At,
    /// The mono `$` of a skill.
    Dollar,
    /// The image glyph.
    ImageGlyph,
    /// The file glyph.
    FileGlyph,
}

/// What leads a chip of `kind`.
pub fn chip_lead(kind: ComposerChipKind) -> (lead: ChipLead)
    ensures
        lead == match kind {
            ComposerChipKind::Mention => ChipLead::At,
            ComposerChipKind::Skill => ChipLead::Dollar,
            ComposerChipKind::Image => ChipLead::ImageGlyph,
            ComposerChipKind::File => ChipLead::FileGlyph,
        },
{
    match kind {
        ComposerChipKind::Mention => ChipLead::At,
        ComposerChipKind::Skill => ChipLead::Dollar,
        ComposerChipKind::Image => ChipLead::ImageGlyph,
        ComposerChipKind::File => ChipLead::FileGlyph,
    }
}

/// The send control: whether it is lit (accent ground, white glyph) and
/// what a click on it asks for. While a turn streams it is the stop button
/// and always lit; otherwise it sends, lit only when the text can be sent.
pub fn send_control(streaming: bool, can_send: bool) -> (c: (bool, ComposerIntent))
    ensures
        c.0 == (streaming || can_send),
        c.1 == if streaming {
            ComposerIntent::Stop
        } else {
            ComposerIntent::Send
        },
{
    let intent = if streaming {
        ComposerIntent::Stop
    } else {
        ComposerIntent::Send
    };
    (streaming || can_send, intent)
}

/// How the composer card is framed.
#[derive(Debug, Clone, Copy, PartialEq, Eq, Structural)]
pub enum ComposerFrame {
    /// Docked under the transcript: one hairline across the top.
    Docked,
    /// Floating with the focus: the accent border and the focus ring.
    Focused,
    /// Floating at rest: the strong hairline and the first shadow step.
    Resting,
}

/// The composer: what it shows around the host's text area.
#[derive(Debug)]
pub struct Composer {
    /// Stable identity of the composer.
    pub id: String,
    /// The chips above the text.
    pub chips: Vec<ComposerChip>,
    /// The model chip's label.
    pub model: String,
    /// The mode chip's label.
    pub mode: String,
    /// The effort chip's label; no chip without one.
    pub effort: Option<String>,
    /// The context note's percentage; no note without one.
    pub context_percent: Option<u8>,
    /// A turn is running: the send control is the stop button.
    pub streaming: bool,
    /// The text can be sent.
    pub can_send: bool,
    /// The text area holds the focus.
    pub focused: bool,
    /// Docked under the transcript instead of floating.
    pub docked: bool,
    /// The `+` menu is open.
    pub plus_open: bool,
    /// The strip above the card; none without one.
    pub meta: Option<ComposerMeta>,
}

/// The optional strip above the card: the branch, how much of the context
/// is used, the session cost and a hint at the right.
#[derive(Debug, PartialEq)]
pub struct ComposerMeta {
    /// The branch name.
    pub branch: String,
    /// The context used, in whole percent.
    pub context_percent: u32,
    /// The session cost label (`$0.31 this session`).
    pub cost: String,
    /// The right-hand hint (`⌘↩ to queue`).
    pub hint: String,
}

impl ComposerMeta {
    /// The branch as the strip writes it: after the branch glyph `⎇`.
    pub fn branch_label(&self) -> (l: String)
        ensures
            l@ == "⎇ "@ + self.branch@,
    {
        let mut out: Vec<char> = Vec::new();
        extend_str(&mut out, "⎇ ");
        extend_str(&mut out, self.branch.as_str());
        string_from(&out)
    }

    /// The context used as the strip writes it beside its meter: `62%`.
    pub fn context_label(&self) -> (l: String)
        ensures
            l@ == decimal(self.context_percent as nat) + "%"@,
    {
        let mut out = decimal_chars(self.context_percent as u64);
        extend_str(&mut out, "%");
        string_from(&out)
    }
}

/// A floating composer on `model`, in `Plan` mode, that can send.
pub fn composer(id: &str, model: &str) -> (c: Composer)
    ensures
        c.id@ == id@,
        c.chips@.len() == 0,
        c.model@ == model@,
        c.mode@ == "Plan"@,
        c.effort is None,
        c.context_percent is None,
        !c.streaming && c.can_send && !c.focused && !c.docked && !c.plus_open,
        c.meta is None,
{
    Composer {
        id: id.to_string(),
        chips: Vec::new(),
        model: model.to_string(),
        mode: "Plan".to_string(),
        effort: None,
        context_percent: None,
        streaming: false,
        can_send: true,
        focused: false,
        docked: false,
        plus_open: false,
        meta: None,
    }
}

impl Composer {
    /// The meta strip above the card.
    pub fn meta(self, meta: ComposerMeta) -> (c: Self)
        ensures
            c == (Composer { meta: Some(meta), ..self }),
    {
        Composer { meta: Some(meta), ..self }
    }

    /// The chips above the text.
    pub fn chips(self, chips: Vec<ComposerChip>) -> (c: Self)
        ensures
            c == (Composer { chips, ..self }),
    {
        Composer { chips, ..self }
    }

    /// The mode chip's label.
    pub fn mode(self, mode: &str) -> (c: Self)
        ensures
            c == (Composer { mode: c.mode, ..self }),
            c.mode@ == mode@,
    {
        Composer { mode: mode.to_string(), ..self }
    }

    /// Adds the effort chip.
    pub fn effort(self, effort: &str) -> (c: Self)
        ensures
            c == (Composer { effort: c.effort, ..self }),
            c.effort matches Some(e) && e@ == effort@,
    {
        Composer { effort: Some(effort.to_string()), ..self }
    }

    /// Adds the context note.
    pub fn context_percent(self, percent: u8) -> (c: Self)
        ensures
            c == (Composer { context_percent: Some(percent), ..self }),
    {
        Composer { context_percent: Some(percent), ..self }
    }

    /// Whether a turn is running.
    pub fn streaming(self, streaming: bool) -> (c: Self)
        ensures
            c == (Composer { streaming, ..self }),
    {
        Composer { streaming, ..self }
    }

    /// Whether the text can be sent.
    pub fn can_send(self, can_send: bool) -> (c: Self)
        ensures
            c == (Composer { can_send, ..self }),
    {
        Composer { can_send, ..self }
    }

    /// Whether the text area holds the focus.
    pub fn focused(self, focused: bool) -> (c: Self)
        ensures
            c == (Composer { focused, ..self }),
    {
        Composer { focused, ..self }
    }

    /// Docked under the transcript.
    pub fn docked(self, docked: bool) -> (c: Self)
        ensures
            c == (Composer { docked, ..self }),
    {
        Composer { docked, ..self }
    }

    /// Whether the `+` menu is open.
    pub fn plus_open(self, open: bool) -> (c: Self)
        ensures
            c == (Composer { plus_open: open, ..self }),
    {
        Composer { plus_open: open, ..self }
    }

    /// The card's frame: docked, or floating with or without the focus.
    pub fn frame(&self) -> (f: ComposerFrame)
        ensures
            f == if self.docked {
                ComposerFrame::Docked
            } else if self.focused {
                ComposerFrame::Focused
            } else {
                ComposerFrame::Resting
            },
    {
        if self.docked {
            ComposerFrame::Docked
        } else if self.focused {
            ComposerFrame::Focused
        } else {
            ComposerFrame::Resting
        }
    }

    /// The mode chip's look: the floating card's is active with a chevron,
    /// the docked one is quiet (neither).
    pub fn mode_chip(&self) -> (r: (bool, bool))
        ensures
            r == (!self.docked, !self.docked),
    {
        (!self.docked, !self.docked)
    }

    /// The context note in the toolbar: `context N%`.
    pub fn context_text(&self) -> (t: Option<String>)
        ensures
            match self.context_percent {
                Some(p) => t matches Some(s) && s@ == "context "@ + decimal(p as nat) + "%"@,
                None => t is None,
            },
    {
        match self.context_percent {
            Some(p) => {
                let mut out: Vec<char> = Vec::new();
                extend_str(&mut out, "context ");
                let d = decimal_chars(p as u64);
                extend_chars(&mut out, &d);
                extend_str(&mut out, "%");
                Some(string_from(&out))
            },
            None => None,
        }
    }

    /// What the send control shows and asks for.
    pub fn send(&self) -> (c: (bool, ComposerIntent))
        ensures
            c.0 == (self.streaming || self.can_send),
            c.1 == if self.streaming {
                ComposerIntent::Stop
            } else {
                ComposerIntent::Send
            },
    {
        send_control(self.streaming, self.can_send)
    }

    /// What the remove `x` of chip `index` asks for: removable chips report
    /// their id, others have no `x`.
    pub fn remove_intent(&self, index: usize) -> (i: Option<ComposerIntent>)
        requires
            index < self.chips@.len(),
        ensures
            self.chips@[index as int].removable ==> (i matches Some(ComposerIntent::RemoveChip(id)) && id@
                == self.chips@[index as int].id@),
            !self.chips@[index as int].removable ==> i is None,
    {
        let c = &self.chips[index];
        if c.removable {
            Some(ComposerIntent::RemoveChip(c.id.clone()))
        } else {
            None
        }
    }
}

} // verus!
